//! The values that the API deals in: pastes, their files, the answers to
//! deletions, the error the service answers with, and what a caller fills in
//! to ask for a paste.
use vstd::prelude::*;

use crate::date::Timestamp;
use crate::json::{Json, JsonValue};

verus! {

/// The text of an optional string.
pub open spec fn opt_text(o: Option<String>) -> Option<Seq<char>> {
    match o {
        Some(s) => Some(s@),
        None => None,
    }
}

/// The model of an optional value.
pub open spec fn opt_view<T: View>(o: Option<T>) -> Option<T::V> {
    match o {
        Some(t) => Some(t@),
        None => None,
    }
}

/// The model of an answer that may be missing and may be an error.
pub open spec fn outcome_view<T: View, E: View>(o: Option<Result<T, E>>) -> Option<Result<T::V, E::V>> {
    match o {
        Some(Ok(t)) => Some(Ok(t@)),
        Some(Err(e)) => Some(Err(e@)),
        None => None,
    }
}

/// A file of a paste.
#[derive(Debug, Clone)]
pub struct File {
    pub filename: String,
    pub content: String,
}

pub struct FileView {
    pub filename: Seq<char>,
    pub content: Seq<char>,
}

impl View for File {
    type V = FileView;

    open spec fn view(&self) -> FileView {
        FileView { filename: self.filename@, content: self.content@ }
    }
}

pub open spec fn files_view(files: Seq<File>) -> Seq<FileView> {
    files.map_values(|f: File| f@)
}

/// A paste.
#[derive(Debug)]
pub struct Paste {
    pub created_at: Timestamp,
    pub expires: Option<Timestamp>,
    pub files: Vec<File>,
    pub id: String,
}

pub struct PasteView {
    pub created_at: Timestamp,
    pub expires: Option<Timestamp>,
    pub files: Seq<FileView>,
    pub id: Seq<char>,
}

impl View for Paste {
    type V = PasteView;

    open spec fn view(&self) -> PasteView {
        PasteView {
            created_at: self.created_at,
            expires: self.expires,
            files: files_view(self.files@),
            id: self.id@,
        }
    }
}

/// A paste as listed among a user's pastes or bookmarks.
#[derive(Debug)]
pub struct UserPaste {
    pub created_at: Timestamp,
    pub expires: Option<Timestamp>,
    pub id: String,
}

pub struct UserPasteView {
    pub created_at: Timestamp,
    pub expires: Option<Timestamp>,
    pub id: Seq<char>,
}

impl View for UserPaste {
    type V = UserPasteView;

    open spec fn view(&self) -> UserPasteView {
        UserPasteView { created_at: self.created_at, expires: self.expires, id: self.id@ }
    }
}

pub open spec fn user_pastes_view(pastes: Seq<UserPaste>) -> Seq<UserPasteView> {
    pastes.map_values(|p: UserPaste| p@)
}

/// The answer to a deletion: the ids that were deleted and those that were
/// not, where the service said.
#[derive(Debug, Clone)]
pub struct DeleteResult {
    pub succeeded: Option<Vec<String>>,
    pub failed: Option<Vec<String>>,
}

pub struct DeleteResultView {
    pub succeeded: Option<Seq<Seq<char>>>,
    pub failed: Option<Seq<Seq<char>>>,
}

impl View for DeleteResult {
    type V = DeleteResultView;

    open spec fn view(&self) -> DeleteResultView {
        DeleteResultView { succeeded: self.succeeded.deep_view(), failed: self.failed.deep_view() }
    }
}

/// The error the service answers with: the status code, and the `error`,
/// `notice` and `detail` members of the body where they are there.
#[derive(Debug)]
pub struct MystbinError {
    pub code: u16,
    pub error: Option<String>,
    pub notice: Option<String>,
    pub detail: Option<Vec<(String, Json)>>,
}

pub struct MystbinErrorView {
    pub code: u16,
    pub error: Option<Seq<char>>,
    pub notice: Option<Seq<char>>,
    pub detail: Option<Seq<(Seq<char>, JsonValue)>>,
}

impl View for MystbinError {
    type V = MystbinErrorView;

    open spec fn view(&self) -> MystbinErrorView {
        MystbinErrorView {
            code: self.code,
            error: opt_text(self.error),
            notice: opt_text(self.notice),
            detail: self.detail.deep_view(),
        }
    }
}

/// What a caller fills in to create a paste of one file. Of the files of a
/// paste of several, the first one's `expires` and `password` are those of
/// the paste.
#[derive(Debug)]
pub struct PasteBuilder {
    pub filename: String,
    pub content: String,
    pub expires: Option<Timestamp>,
    pub password: Option<String>,
}

pub struct PasteBuilderView {
    pub filename: Seq<char>,
    pub content: Seq<char>,
    pub expires: Option<Timestamp>,
    pub password: Option<Seq<char>>,
}

impl View for PasteBuilder {
    type V = PasteBuilderView;

    open spec fn view(&self) -> PasteBuilderView {
        PasteBuilderView {
            filename: self.filename@,
            content: self.content@,
            expires: self.expires,
            password: opt_text(self.password),
        }
    }
}

/// What a caller fills in to create a paste of several files.
#[derive(Debug)]
pub struct PastesBuilder {
    pub files: Vec<PasteBuilder>,
}

impl View for PastesBuilder {
    type V = Seq<PasteBuilderView>;

    open spec fn view(&self) -> Seq<PasteBuilderView> {
        self.files@.map_values(|b: PasteBuilder| b@)
    }
}

/// What a caller fills in to fetch a paste.
#[derive(Debug)]
pub struct GetPasteBuilder {
    pub id: String,
    pub password: Option<String>,
}

/// The page of a user's pastes to list.
#[derive(Debug)]
pub struct UserPastesOptions {
    pub limit: Option<u64>,
    pub page: Option<u64>,
}

} // verus!
