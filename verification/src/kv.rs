//! Payload types of the key-value capability: the operations an app can ask
//! the shell to perform on its store, and the shell's responses.
//!
//! The kernel treats these as opaque freight: it moves them between the app
//! and the shell without interpreting them. Each type has a mathematical view
//! (`@`) over sequences, which is what the kernel's contracts speak of.

use vstd::prelude::*;

verus! {

/// An effect request against the shell's key-value store.
#[derive(Clone, Debug, PartialEq, Eq)]
pub enum KeyValueOperation {
    Get { key: String },
    Put { key: String, value: Vec<u8> },
    Delete { key: String },
    Exists { key: String },
    ListKeys { prefix: String, cursor: u64 },
}

/// A shell-side failure, carried inside the response payload. The kernel
/// neither retries nor inspects it.
#[derive(Clone, Debug, PartialEq, Eq)]
pub enum KeyValueError {
    CursorNotFound,
    Io { message: String },
    Other { message: String },
}

/// The successful payload of a key-value response; each variant answers the
/// operation of the same name.
#[derive(Clone, Debug, PartialEq, Eq)]
pub enum KeyValueResponse {
    Get { value: Option<Vec<u8>> },
    Put { previous: Option<Vec<u8>> },
    Delete { previous: Option<Vec<u8>> },
    Exists { is_present: bool },
    ListKeys { keys: Vec<String>, next_cursor: u64 },
}

/// What the shell posts back for a key-value request.
pub type KeyValueResult = Result<KeyValueResponse, KeyValueError>;

/// Mathematical view of a [`KeyValueOperation`].
pub enum KvOpView {
    Get { key: Seq<char> },
    Put { key: Seq<char>, value: Seq<u8> },
    Delete { key: Seq<char> },
    Exists { key: Seq<char> },
    ListKeys { prefix: Seq<char>, cursor: u64 },
}

/// Mathematical view of a [`KeyValueError`].
pub enum KvErrorView {
    CursorNotFound,
    Io { message: Seq<char> },
    Other { message: Seq<char> },
}

/// Mathematical view of a [`KeyValueResponse`].
pub enum KvResponseView {
    Get { value: Option<Seq<u8>> },
    Put { previous: Option<Seq<u8>> },
    Delete { previous: Option<Seq<u8>> },
    Exists { is_present: bool },
    ListKeys { keys: Seq<Seq<char>>, next_cursor: u64 },
}

/// Mathematical view of a [`KeyValueResult`].
pub type KvResultView = Result<KvResponseView, KvErrorView>;

pub open spec fn bytes_view(o: Option<Vec<u8>>) -> Option<Seq<u8>> {
    match o {
        Option::Some(v) => Option::Some(v@),
        Option::None => Option::None,
    }
}

pub open spec fn keys_view(keys: Vec<String>) -> Seq<Seq<char>> {
    keys@.map_values(|k: String| k@)
}

impl View for KeyValueOperation {
    type V = KvOpView;

    open spec fn view(&self) -> KvOpView {
        match self {
            KeyValueOperation::Get { key } => KvOpView::Get { key: key@ },
            KeyValueOperation::Put { key, value } => KvOpView::Put { key: key@, value: value@ },
            KeyValueOperation::Delete { key } => KvOpView::Delete { key: key@ },
            KeyValueOperation::Exists { key } => KvOpView::Exists { key: key@ },
            KeyValueOperation::ListKeys { prefix, cursor } => KvOpView::ListKeys {
                prefix: prefix@,
                cursor: *cursor,
            },
        }
    }
}

impl View for KeyValueError {
    type V = KvErrorView;

    open spec fn view(&self) -> KvErrorView {
        match self {
            KeyValueError::CursorNotFound => KvErrorView::CursorNotFound,
            KeyValueError::Io { message } => KvErrorView::Io { message: message@ },
            KeyValueError::Other { message } => KvErrorView::Other { message: message@ },
        }
    }
}

impl View for KeyValueResponse {
    type V = KvResponseView;

    open spec fn view(&self) -> KvResponseView {
        match self {
            KeyValueResponse::Get { value } => KvResponseView::Get { value: bytes_view(*value) },
            KeyValueResponse::Put { previous } => KvResponseView::Put {
                previous: bytes_view(*previous),
            },
            KeyValueResponse::Delete { previous } => KvResponseView::Delete {
                previous: bytes_view(*previous),
            },
            KeyValueResponse::Exists { is_present } => KvResponseView::Exists {
                is_present: *is_present,
            },
            KeyValueResponse::ListKeys { keys, next_cursor } => KvResponseView::ListKeys {
                keys: keys_view(*keys),
                next_cursor: *next_cursor,
            },
        }
    }
}

pub open spec fn result_view(r: KeyValueResult) -> KvResultView {
    match r {
        Result::Ok(response) => Result::Ok(response@),
        Result::Err(error) => Result::Err(error@),
    }
}

} // verus!
