//! The HTTP boundary in plain values: what an upload must be to reach the
//! pipeline, and the reply that an outcome becomes.

use vstd::prelude::*;
use vstd::string::{StrSliceExecFns, StringExecFns};
use vstd::utf8::{decode_utf8, encode_utf8, valid_utf8};
use crate::error::{RenderError, RenderErrorModel};
use crate::pipeline::{outcome_view, OutcomeModel};

verus! {

/// The most bytes that an uploaded file may hold: two mebibytes.
pub const MAX_UPLOAD_BYTES: usize = 2097152;

/// Status of a reply that carries what was asked for.
pub const STATUS_OK: u16 = 200;

/// Status of a reply to a request without a usable file.
pub const STATUS_BAD_REQUEST: u16 = 400;

/// Status of a reply to an upload over the limit.
pub const STATUS_TOO_LARGE: u16 = 413;

/// Status of a reply to a request that failed in rendering.
pub const STATUS_SERVER_ERROR: u16 = 500;

/// The media type of a rendered document.
pub const PDF_MEDIA_TYPE: &'static str = "application/pdf";

/// The media type of the upload form.
pub const HTML_MEDIA_TYPE: &'static str = "text/html; charset=utf-8";

/// What is said of a request without a usable file.
pub const INVALID_FILE: &'static str = "Invalid file";

/// What is said of an upload over the limit.
pub const FILE_TOO_LARGE: &'static str = "File too large";

/// A page with a form that uploads one file to the render endpoint.
pub const UPLOAD_FORM: &'static str =
    "<html>\n        <head><title>Upload Test</title></head>\n        <body>\n            <form action=\"/render\" method=\"post\" enctype=\"multipart/form-data\">\n                <input type=\"file\" name=\"file\"/>\n                <button type=\"submit\">Submit</button>\n            </form>\n            <p>Max size: 2MB</p>\n        </body>\n    </html>\n    ";

/// Why an upload did not reach the pipeline.
#[derive(Clone, Copy, Debug, PartialEq, Eq, Structural)]
pub enum UploadError {
    /// The request carried no file part.
    Missing,
    /// The file holds more than `MAX_UPLOAD_BYTES` bytes.
    TooLarge,
    /// The file's bytes are not UTF-8 text.
    NotText,
}

/// A reply in plain values.
#[derive(Clone, Debug, PartialEq, Eq)]
pub struct HttpReply {
    pub status: u16,
    /// The media type of the body, where one is declared.
    pub content_type: Option<String>,
    pub body: Vec<u8>,
}

/// `HttpReply` as a mathematical value.
pub struct HttpReplyModel {
    pub status: u16,
    pub content_type: Option<Seq<char>>,
    pub body: Seq<u8>,
}

impl View for HttpReply {
    type V = HttpReplyModel;

    open spec fn view(&self) -> HttpReplyModel {
        HttpReplyModel {
            status: self.status,
            content_type: match self.content_type {
                Some(media) => Some(media@),
                None => None,
            },
            body: self.body@,
        }
    }
}

/// The bytes of an uploaded file part, where the request carried one.
pub open spec fn part_view(part: Option<Vec<u8>>) -> Option<Seq<u8>> {
    match part {
        Some(bytes) => Some(bytes@),
        None => None,
    }
}

/// The markup that an upload stands for: the text that its bytes encode,
/// where there is a file part, it is within the limit and it is UTF-8.
pub open spec fn markup_of(part: Option<Seq<u8>>) -> Result<Seq<char>, UploadError> {
    match part {
        None => Err(UploadError::Missing),
        Some(bytes) => if bytes.len() > MAX_UPLOAD_BYTES {
            Err(UploadError::TooLarge)
        } else if !valid_utf8(bytes) {
            Err(UploadError::NotText)
        } else {
            Ok(decode_utf8(bytes))
        },
    }
}

/// The reply to an upload that did not reach the pipeline.
pub open spec fn rejection_of(error: UploadError) -> HttpReplyModel {
    match error {
        UploadError::TooLarge => HttpReplyModel {
            status: STATUS_TOO_LARGE,
            content_type: None,
            body: encode_utf8(FILE_TOO_LARGE@),
        },
        _ => HttpReplyModel {
            status: STATUS_BAD_REQUEST,
            content_type: None,
            body: encode_utf8(INVALID_FILE@),
        },
    }
}

/// The reply that an outcome becomes: the PDF under its media type, or a
/// server error with the failure's description as the body.
pub open spec fn reply_of(outcome: OutcomeModel) -> HttpReplyModel {
    match outcome {
        Ok(bytes) => HttpReplyModel {
            status: STATUS_OK,
            content_type: Some(PDF_MEDIA_TYPE@),
            body: bytes,
        },
        Err(error) => HttpReplyModel {
            status: STATUS_SERVER_ERROR,
            content_type: None,
            body: encode_utf8(error.message()),
        },
    }
}

/// `String::from_utf8` of std. The bytes are text exactly where they are
/// well-formed UTF-8, and the text is then the characters that they encode.
#[verifier::external_body]
fn text_of(bytes: Vec<u8>) -> (text: Option<String>)
    ensures
        text is Some <==> valid_utf8(bytes@),
        text matches Some(decoded) ==> decoded@ == decode_utf8(bytes@),
{
    match String::from_utf8(bytes) {
        Ok(decoded) => Some(decoded),
        Err(_) => None,
    }
}

/// Turns an uploaded file part into markup, or says why it is none. The
/// text is taken as it is: whether it is well-formed markup is for the
/// browser to say.
pub fn accept_upload(part: Option<Vec<u8>>) -> (markup: Result<String, UploadError>)
    ensures
        match markup_of(part_view(part)) {
            Ok(text) => markup matches Ok(accepted) && accepted@ == text,
            Err(error) => markup == Err::<String, UploadError>(error),
        },
{
    match part {
        None => Err(UploadError::Missing),
        Some(bytes) => {
            if bytes.len() > MAX_UPLOAD_BYTES {
                Err(UploadError::TooLarge)
            } else {
                match text_of(bytes) {
                    Some(text) => Ok(text),
                    None => Err(UploadError::NotText),
                }
            }
        },
    }
}

/// The reply to an upload that did not reach the pipeline.
pub fn reject(error: UploadError) -> (reply: HttpReply)
    ensures
        reply@ == rejection_of(error),
{
    match error {
        UploadError::TooLarge => HttpReply {
            status: STATUS_TOO_LARGE,
            content_type: None,
            body: FILE_TOO_LARGE.as_bytes_vec(),
        },
        _ => HttpReply {
            status: STATUS_BAD_REQUEST,
            content_type: None,
            body: INVALID_FILE.as_bytes_vec(),
        },
    }
}

/// The reply to a request that went through the pipeline.
pub fn reply_for(outcome: Result<Vec<u8>, RenderError>) -> (reply: HttpReply)
    ensures
        reply@ == reply_of(outcome_view(outcome)),
{
    match outcome {
        Ok(bytes) => HttpReply {
            status: STATUS_OK,
            content_type: Some(String::from_str(PDF_MEDIA_TYPE)),
            body: bytes,
        },
        Err(error) => {
            let message = error.message();
            HttpReply {
                status: STATUS_SERVER_ERROR,
                content_type: None,
                body: message.as_str().as_bytes_vec(),
            }
        },
    }
}

/// The reply that shows the upload form.
pub fn upload_form() -> (reply: HttpReply)
    ensures
        reply@ == (HttpReplyModel {
            status: STATUS_OK,
            content_type: Some(HTML_MEDIA_TYPE@),
            body: encode_utf8(UPLOAD_FORM@),
        }),
{
    HttpReply {
        status: STATUS_OK,
        content_type: Some(String::from_str(HTML_MEDIA_TYPE)),
        body: UPLOAD_FORM.as_bytes_vec(),
    }
}

/// Only a rendered document is answered with success: a reply has the
/// status of success and the PDF media type exactly where the outcome is a
/// PDF, and its body is then that PDF, byte for byte.
pub proof fn success_reply_is_pdf(outcome: OutcomeModel)
    ensures
        reply_of(outcome).status == STATUS_OK <==> outcome is Ok,
        outcome is Err ==> reply_of(outcome).status == STATUS_SERVER_ERROR,
        outcome matches Ok(bytes) ==> reply_of(outcome).body == bytes,
        outcome matches Err(error) ==> decode_utf8(reply_of(outcome).body) == error.message(),
{
    broadcast use vstd::utf8::encode_utf8_decode_utf8;
}

/// What is accepted is what was uploaded: the markup that reaches the
/// pipeline encodes to the very bytes of the file.
pub proof fn accepted_upload_is_verbatim(bytes: Seq<u8>)
    requires
        markup_of(Some(bytes)) is Ok,
    ensures
        encode_utf8(markup_of(Some(bytes))->Ok_0) == bytes,
        bytes.len() <= MAX_UPLOAD_BYTES,
{
    broadcast use vstd::utf8::decode_utf8_encode_utf8;
}

} // verus!
