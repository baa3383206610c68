//! The secure export operation: decode a payload, then commit it through the
//! public-storage collaborator in a single write.
//!
//! The collaborator is driven from outside this crate. `begin_export` decides
//! whether a write is issued and exactly what it carries; `conclude_export`
//! turns the collaborator's reply into the final outcome.

use vstd::prelude::*;
use crate::codec::{
    decode_fault_text, decode_standard, decoded, decoding_view, describe_fault, encode_standard,
    max_encodable_len, standard_decoding, standard_encoding, DecodeFault,
};

verus! {

/// The public directory that receives exported documents.
#[derive(Clone, Copy, Debug, PartialEq, Eq, Structural)]
pub enum PublicDirectory {
    Downloads,
}

/// The input of an export: a target file name, an optional MIME hint, and
/// the document as encoded text.
#[derive(Clone, Debug, PartialEq, Eq)]
pub struct ExportRequest {
    pub filename: String,
    pub mime_hint: Option<String>,
    pub payload: String,
}

/// The one write that an export asks of the storage collaborator.
#[derive(Clone, Debug, PartialEq, Eq)]
pub struct StorageWrite {
    pub directory: PublicDirectory,
    pub filename: String,
    pub mime_hint: Option<String>,
    pub bytes: Vec<u8>,
}

/// Why an export failed.
#[derive(Clone, Debug, PartialEq, Eq)]
pub enum ExportError {
    /// The payload is not a valid encoding; nothing was written.
    DecodeFailed(DecodeFault),
    /// The storage collaborator refused or failed the write; its message.
    StorageFailed(String),
}

/// An export request as plain data.
pub struct ExportRequestView {
    pub filename: Seq<char>,
    pub mime_hint: Option<Seq<char>>,
    pub payload: Seq<char>,
}

/// A storage write as plain data.
pub struct StorageWriteView {
    pub directory: PublicDirectory,
    pub filename: Seq<char>,
    pub mime_hint: Option<Seq<char>>,
    pub bytes: Seq<u8>,
}

/// An export error as plain data.
pub enum ExportErrorView {
    DecodeFailed(DecodeFault),
    StorageFailed(Seq<char>),
}

/// An optional string as an optional sequence of characters.
pub open spec fn hint_text(hint: Option<String>) -> Option<Seq<char>> {
    match hint {
        Some(text) => Some(text@),
        None => None,
    }
}

impl View for ExportRequest {
    type V = ExportRequestView;

    open spec fn view(&self) -> ExportRequestView {
        ExportRequestView {
            filename: self.filename@,
            mime_hint: hint_text(self.mime_hint),
            payload: self.payload@,
        }
    }
}

impl View for StorageWrite {
    type V = StorageWriteView;

    open spec fn view(&self) -> StorageWriteView {
        StorageWriteView {
            directory: self.directory,
            filename: self.filename@,
            mime_hint: hint_text(self.mime_hint),
            bytes: self.bytes@,
        }
    }
}

impl View for ExportError {
    type V = ExportErrorView;

    open spec fn view(&self) -> ExportErrorView {
        match self {
            ExportError::DecodeFailed(fault) => ExportErrorView::DecodeFailed(*fault),
            ExportError::StorageFailed(message) => ExportErrorView::StorageFailed(message@),
        }
    }
}

/// The reply of the storage collaborator as plain data.
pub open spec fn reply_view(reply: Result<(), String>) -> Result<(), Seq<char>> {
    match reply {
        Ok(()) => Ok(()),
        Err(message) => Err(message@),
    }
}

/// The result of planning an export as plain data.
pub open spec fn plan_view(plan: Result<StorageWrite, ExportError>) -> Result<
    StorageWriteView,
    ExportErrorView,
> {
    match plan {
        Ok(write) => Ok(write@),
        Err(error) => Err(error@),
    }
}

/// The final outcome of an export as plain data.
pub open spec fn outcome_view(outcome: Result<(), ExportError>) -> Result<(), ExportErrorView> {
    match outcome {
        Ok(()) => Ok(()),
        Err(error) => Err(error@),
    }
}

/// The write of some bytes into the downloads directory.
pub open spec fn downloads_write(
    filename: Seq<char>,
    mime_hint: Option<Seq<char>>,
    bytes: Seq<u8>,
) -> StorageWriteView {
    StorageWriteView { directory: PublicDirectory::Downloads, filename, mime_hint, bytes }
}

/// The plan for a payload whose decoding is known: decoded bytes become one
/// write into the downloads directory, under the requested name and hint; a
/// decoding fault ends the export.
pub open spec fn plan_for(
    filename: Seq<char>,
    mime_hint: Option<Seq<char>>,
    decoding: Result<Seq<u8>, DecodeFault>,
) -> Result<StorageWriteView, ExportErrorView> {
    match decoding {
        Ok(bytes) => Ok(downloads_write(filename, mime_hint, bytes)),
        Err(fault) => Err(ExportErrorView::DecodeFailed(fault)),
    }
}

/// What an export does with a request before storage is touched: the plan
/// for what the standard engine makes of the payload.
pub open spec fn export_plan(request: ExportRequestView) -> Result<
    StorageWriteView,
    ExportErrorView,
> {
    plan_for(request.filename, request.mime_hint, standard_decoding(request.payload))
}

/// The decode error for a decoding that failed.
pub open spec fn decode_failure(decoding: Result<Seq<u8>, DecodeFault>) -> ExportErrorView
    recommends
        decoding is Err,
{
    ExportErrorView::DecodeFailed(decoding->Err_0)
}

/// The writes that reach the storage collaborator during an export: none
/// when decoding fails, otherwise exactly the planned one.
pub open spec fn storage_writes(request: ExportRequestView) -> Seq<StorageWriteView> {
    match export_plan(request) {
        Ok(write) => seq![write],
        Err(_) => seq![],
    }
}

/// How the collaborator's reply ends an export whose write was issued.
pub open spec fn export_conclusion(reply: Result<(), Seq<char>>) -> Result<(), ExportErrorView> {
    match reply {
        Ok(()) => Ok(()),
        Err(message) => Err(ExportErrorView::StorageFailed(message)),
    }
}

/// The outcome of a whole export, given what the collaborator replies to the
/// write if one is issued.
pub open spec fn export_outcome(
    request: ExportRequestView,
    reply: Result<(), Seq<char>>,
) -> Result<(), ExportErrorView> {
    match export_plan(request) {
        Ok(_) => export_conclusion(reply),
        Err(error) => Err(error),
    }
}

/// The text with which an error is reported to the caller: the decoder's
/// message for a decoding fault, the collaborator's message verbatim for a
/// storage failure.
pub open spec fn error_text(error: ExportErrorView) -> Seq<char> {
    match error {
        ExportErrorView::DecodeFailed(fault) => decode_fault_text(fault),
        ExportErrorView::StorageFailed(message) => message,
    }
}

/// The string-typed result delivered at the command boundary.
pub open spec fn reported_outcome(outcome: Result<(), ExportErrorView>) -> Result<(), Seq<char>> {
    match outcome {
        Ok(()) => Ok(()),
        Err(error) => Err(error_text(error)),
    }
}

/// Decodes the payload with the standard engine.
pub fn decode_payload(payload: &str) -> (result: Result<Vec<u8>, ExportError>)
    ensures
        match result {
            Ok(bytes) => standard_decoding(payload@) == decoded(bytes@),
            Err(error) => standard_decoding(payload@) is Err && error@ == decode_failure(
                standard_decoding(payload@),
            ),
        },
{
    match decode_standard(payload) {
        Ok(bytes) => Ok(bytes),
        Err(fault) => Err(ExportError::DecodeFailed(fault)),
    }
}

/// Plans the write for a payload whose decoding is already known. The plan
/// is a failure exactly when the decoding is one.
pub fn plan_write(
    filename: String,
    mime_hint: Option<String>,
    decoding: Result<Vec<u8>, DecodeFault>,
) -> (plan: Result<StorageWrite, ExportError>)
    ensures
        plan_view(plan) == plan_for(filename@, hint_text(mime_hint), decoding_view(decoding)),
        plan is Ok <==> decoding is Ok,
{
    match decoding {
        Ok(bytes) => Ok(
            StorageWrite { directory: PublicDirectory::Downloads, filename, mime_hint, bytes },
        ),
        Err(fault) => Err(ExportError::DecodeFailed(fault)),
    }
}

/// First step of an export. Returns the single write to hand to the storage
/// collaborator, or the decode error that ends the export before storage is
/// touched.
pub fn begin_export(request: ExportRequest) -> (plan: Result<StorageWrite, ExportError>)
    ensures
        plan_view(plan) == export_plan(request@),
        plan is Ok <==> standard_decoding(request.payload@) is Ok,
{
    let decoded = decode_standard(request.payload.as_str());
    plan_write(request.filename, request.mime_hint, decoded)
}

/// Last step of an export: maps the collaborator's reply to the outcome. A
/// failure keeps the collaborator's message unchanged; nothing is retried.
pub fn conclude_export(reply: Result<(), String>) -> (outcome: Result<(), ExportError>)
    ensures
        outcome_view(outcome) == export_conclusion(reply_view(reply)),
{
    match reply {
        Ok(()) => Ok(()),
        Err(message) => Err(ExportError::StorageFailed(message)),
    }
}

/// The whole export against a storage collaborator given as a function. The
/// collaborator is handed the planned write and is called at most once: not
/// at all when the payload does not decode, and otherwise once, its reply
/// deciding the outcome.
pub fn export_with<S>(request: ExportRequest, storage: S) -> (outcome: Result<(), ExportError>)
    where
        S: FnOnce(StorageWrite) -> Result<(), String>,

    requires
        forall|write: StorageWrite|
            export_plan(request@) == plan_view(Ok(write)) ==> call_requires(storage, (write,)),
    ensures
        standard_decoding(request.payload@) is Err ==> outcome is Err && outcome->Err_0@
            == decode_failure(standard_decoding(request.payload@)),
        standard_decoding(request.payload@) is Ok ==> exists|
            write: StorageWrite,
            reply: Result<(), String>,
        |
            {
                &&& export_plan(request@) == plan_view(Ok(write))
                &&& #[trigger] call_ensures(storage, (write,), reply)
                &&& outcome_view(outcome) == export_outcome(request@, reply_view(reply))
            },
{
    match begin_export(request) {
        Ok(write) => {
            let reply = storage(write);
            conclude_export(reply)
        },
        Err(error) => Err(error),
    }
}

impl ExportError {
    /// The descriptive text of the error.
    pub fn message(&self) -> (text: String)
        ensures
            text@ == error_text(self@),
    {
        match self {
            ExportError::DecodeFailed(fault) => describe_fault(*fault),
            ExportError::StorageFailed(message) => message.clone(),
        }
    }
}

/// Turns an outcome into the string-typed result that the command boundary
/// delivers.
pub fn report_outcome(outcome: Result<(), ExportError>) -> (reported: Result<(), String>)
    ensures
        reply_view(reported) == reported_outcome(outcome_view(outcome)),
{
    match outcome {
        Ok(()) => Ok(()),
        Err(error) => Err(error.message()),
    }
}

impl ExportRequest {
    /// Builds the request that exports a document under a name: the payload
    /// is the document's encoding, so the export writes the document back
    /// byte for byte. `None` when the document is too long to encode.
    pub fn for_document(filename: String, mime_hint: Option<String>, document: &[u8]) -> (request:
        Option<ExportRequest>)
        ensures
            request is Some <==> document@.len() <= max_encodable_len(),
            request matches Some(built) ==> {
                &&& built.filename == filename
                &&& built.mime_hint == mime_hint
                &&& built.payload@ == standard_encoding(document@)
                &&& standard_decoding(built.payload@) == decoded(document@)
                &&& storage_writes(built@) == seq![
                    downloads_write(filename@, hint_text(mime_hint), document@),
                ]
            },
    {
        match encode_payload(document) {
            Some(payload) => Some(ExportRequest { filename, mime_hint, payload }),
            None => None,
        }
    }
}

/// Encodes a document as an export payload. `None` when the document is too
/// long for its encoding to be held in memory.
pub fn encode_payload(bytes: &[u8]) -> (payload: Option<String>)
    ensures
        payload is Some <==> bytes@.len() <= max_encodable_len(),
        payload matches Some(text) ==> text@ == standard_encoding(bytes@),
        payload matches Some(text) ==> standard_decoding(text@) == decoded(bytes@),
{
    if bytes.len() <= usize::MAX / 4 {
        Some(encode_standard(bytes))
    } else {
        None
    }
}

/// A payload that does not decode ends the export with a decode error,
/// whatever the collaborator would have replied, and no write reaches the
/// collaborator.
pub proof fn lemma_decode_failure_writes_nothing(
    request: ExportRequestView,
    reply: Result<(), Seq<char>>,
)
    requires
        standard_decoding(request.payload) is Err,
    ensures
        storage_writes(request).len() == 0,
        export_plan(request) is Err,
        export_outcome(request, reply) is Err,
        export_outcome(request, reply)->Err_0 == decode_failure(
            standard_decoding(request.payload),
        ),
{
}

/// A payload that decodes reaches the collaborator exactly once. A failure
/// reported there becomes a storage error that carries the collaborator's
/// message unchanged, and a success ends the export with success.
pub proof fn lemma_storage_reply_decides(request: ExportRequestView, message: Seq<char>)
    requires
        standard_decoding(request.payload) is Ok,
    ensures
        storage_writes(request).len() == 1,
        export_outcome(request, Err(message)) is Err,
        export_outcome(request, Err(message))->Err_0 == ExportErrorView::StorageFailed(message),
        error_text(export_outcome(request, Err(message))->Err_0) == message,
        export_outcome(request, Ok(())) is Ok,
{
}

/// A payload that decodes to some bytes is written as exactly those bytes,
/// into the downloads directory, under the requested name and hint.
pub proof fn lemma_decoded_bytes_are_written(request: ExportRequestView, bytes: Seq<u8>)
    requires
        standard_decoding(request.payload) == decoded(bytes),
    ensures
        storage_writes(request) == seq![
            downloads_write(request.filename, request.mime_hint, bytes),
        ],
        storage_writes(request)[0].bytes == bytes,
{
}

} // verus!
