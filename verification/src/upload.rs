//! The upload orchestrator: a file goes up in two phases. The API is asked
//! to authorize the upload and answers with a pre-signed URL and a file
//! key; the bytes are then put to that URL, outside the API's own
//! authentication.

use crate::classify::{classification, handle_error_response};
use crate::client::PodbeanClient;
use crate::endpoints::call_of;
use crate::error::{result_view, ErrorView, PodbeanError};
use crate::json::{check_json, json_string_at, json_text_at, json_well_formed};
use crate::request::{
    is_success, pairs_view, push_pair, ApiCall, ApiRequest, CallView, HttpMethod, HttpResponse,
    Payload, PayloadView, RequestView,
};
use crate::text::{decimal, decimal_string};
use crate::types::{opt_text, MediaFormat};
use vstd::prelude::*;
use vstd::string::*;

verus! {

/// The second phase of an upload: the request that stores the file, and
/// the key under which the API will know it.
#[derive(Debug, PartialEq, Eq)]
pub struct Transfer {
    /// What to send to the storage
    pub request: ApiRequest,
    /// The key of the file, to publish an episode with
    pub file_key: String,
}

/// A transfer, as plain values.
pub ghost struct TransferView {
    pub request: RequestView,
    pub file_key: Seq<char>,
}

impl View for Transfer {
    type V = TransferView;

    open spec fn view(&self) -> TransferView {
        TransferView { request: self.request@, file_key: self.file_key@ }
    }
}

/// A planned transfer or the failure to plan one, as plain values.
pub open spec fn plan_view(plan: Result<Transfer, PodbeanError>) -> Result<
    TransferView,
    ErrorView,
> {
    match plan {
        Ok(transfer) => Ok(transfer@),
        Err(error) => Err(error@),
    }
}

/// The call that asks the API to authorize the upload of a file.
pub open spec fn upload_authorize_call(
    file_name: Seq<char>,
    file_size: nat,
    media_format: MediaFormat,
) -> CallView {
    call_of(
        HttpMethod::Get,
        "/files/uploadAuthorize"@,
        seq![
            ("filename"@, file_name),
            ("content_type"@, media_format.wire()),
            ("filesize"@, decimal(file_size)),
        ],
    )
}

/// The request that puts `content` to the pre-signed URL: it carries the
/// MIME type of the format and no credential.
pub open spec fn transfer_request(
    presigned_url: Seq<char>,
    content: Seq<u8>,
    media_format: MediaFormat,
) -> RequestView {
    RequestView {
        method: HttpMethod::Put,
        url: presigned_url,
        headers: seq![("Content-Type"@, media_format.wire())],
        payload: PayloadView::Bytes(content),
    }
}

/// The transfer for an authorization in which the pre-signed URL and the
/// file key were found or not. Without either there is no transfer.
pub open spec fn transfer_for(
    presigned_url: Option<Seq<char>>,
    file_key: Option<Seq<char>>,
    content: Seq<u8>,
    media_format: MediaFormat,
) -> Result<TransferView, ErrorView> {
    match (presigned_url, file_key) {
        (None, _) => Err(ErrorView::Other("Missing presigned_url in response"@)),
        (Some(_), None) => Err(ErrorView::Other("Missing file_key in response"@)),
        (Some(url), Some(key)) => Ok(
            TransferView { request: transfer_request(url, content, media_format), file_key: key },
        ),
    }
}

/// Whether `plan` is what follows from the body `authorization` of the
/// answer to the first phase: a decode failure where it is no JSON
/// document, else the transfer for what it holds at `presigned_url` and
/// at `file_key`.
pub open spec fn upload_plan(
    authorization: Seq<u8>,
    content: Seq<u8>,
    media_format: MediaFormat,
    plan: Result<TransferView, ErrorView>,
) -> bool {
    if !json_well_formed(authorization) {
        plan matches Err(ErrorView::Serialization(_))
    } else {
        plan == transfer_for(
            json_text_at(authorization, "/presigned_url"@),
            json_text_at(authorization, "/file_key"@),
            content,
            media_format,
        )
    }
}

/// An upload that was authorized without a file key, or without a
/// pre-signed URL, fails before anything is transferred: what follows
/// from such an authorization is never a transfer.
pub proof fn lemma_no_transfer_without_fields(
    authorization: Seq<u8>,
    content: Seq<u8>,
    media_format: MediaFormat,
    plan: Result<TransferView, ErrorView>,
)
    requires
        upload_plan(authorization, content, media_format, plan),
        json_text_at(authorization, "/file_key"@) is None || json_text_at(
            authorization,
            "/presigned_url"@,
        ) is None,
    ensures
        plan is Err,
{
}

/// Plans the transfer for an authorization in which the pre-signed URL and
/// the file key were found or not.
pub fn plan_transfer(
    presigned_url: Option<String>,
    file_key: Option<String>,
    file_content: Vec<u8>,
    media_format: MediaFormat,
) -> (plan: Result<Transfer, PodbeanError>)
    ensures
        plan_view(plan) == transfer_for(
            opt_text(presigned_url),
            opt_text(file_key),
            file_content@,
            media_format,
        ),
{
    let url = match presigned_url {
        Some(url) => url,
        None => {
            return Err(
                PodbeanError::OtherError(String::from_str("Missing presigned_url in response")),
            );
        },
    };
    let file_key = match file_key {
        Some(key) => key,
        None => {
            return Err(PodbeanError::OtherError(String::from_str("Missing file_key in response")));
        },
    };
    let mut headers: Vec<(String, String)> = Vec::new();
    assert(pairs_view(headers@) =~= Seq::empty());
    push_pair(&mut headers, "Content-Type", media_format.to_string());
    assert(pairs_view(headers@) =~= seq![("Content-Type"@, media_format.wire())]);
    Ok(
        Transfer {
            request: ApiRequest {
                method: HttpMethod::Put,
                url,
                headers,
                payload: Payload::Bytes(file_content),
            },
            file_key,
        },
    )
}

impl PodbeanClient {
    /// Uploads a media file to Podbean: the call of the first phase, which
    /// asks the API to authorize the upload of `file_content` under
    /// `file_name`. The body of its answer goes to
    /// [`PodbeanClient::upload_transfer`].
    ///
    /// # Arguments
    ///
    /// * `file_name` - Name of the file
    /// * `file_content` - The bytes of the file
    /// * `media_format` - Audio format of the file, which gives its MIME type
    pub fn upload_media(&self, file_name: String, file_content: &Vec<u8>, media_format: MediaFormat) -> (call:
        ApiCall)
        ensures
            call@ == upload_authorize_call(file_name@, file_content@.len(), media_format),
    {
        let mut params: Vec<(String, String)> = Vec::new();
        assert(pairs_view(params@) =~= Seq::empty());
        push_pair(&mut params, "filename", file_name);
        push_pair(&mut params, "content_type", media_format.to_string());
        push_pair(&mut params, "filesize", decimal_string(file_content.len() as u64));
        assert(pairs_view(params@) =~= seq![
            ("filename"@, file_name@),
            ("content_type"@, media_format.wire()),
            ("filesize"@, decimal(file_content@.len())),
        ]);
        ApiCall {
            method: HttpMethod::Get,
            endpoint: String::from_str("/files/uploadAuthorize"),
            params: Some(params),
        }
    }

    /// The second phase of an upload, from the body `authorization` of
    /// the answer to the first: the request that puts `file_content` to
    /// the pre-signed URL, and the file key.
    ///
    /// A body without `presigned_url` or without `file_key` is a failure,
    /// and nothing is left to send.
    pub fn upload_transfer(authorization: &[u8], file_content: Vec<u8>, media_format: MediaFormat) -> (plan:
        Result<Transfer, PodbeanError>)
        ensures
            upload_plan(authorization@, file_content@, media_format, plan_view(plan)),
    {
        match check_json(authorization) {
            Err(err) => Err(PodbeanError::SerializationError(err)),
            Ok(_) => {
                let presigned_url = json_string_at(authorization, "/presigned_url");
                let file_key = json_string_at(authorization, "/file_key");
                plan_transfer(presigned_url, file_key, file_content, media_format)
            },
        }
    }

    /// Takes what came of the transfer: on success the media key, which is
    /// the file key of the authorization; else the one error that the
    /// outcome stands for.
    pub fn upload_finished(outcome: Result<HttpResponse, reqwest::Error>, file_key: String) -> (media_key:
        Result<String, PodbeanError>)
        ensures
            match outcome {
                Err(cause) => result_view(media_key) == Err::<
                    Seq<char>,
                    ErrorView,
                >(ErrorView::Network(cause)),
                Ok(response) => if is_success(response.status) {
                    result_view(media_key) == Ok::<Seq<char>, ErrorView>(file_key@)
                } else {
                    result_view(media_key) == Err::<Seq<char>, ErrorView>(
                        classification(response@),
                    )
                },
            },
    {
        match outcome {
            Err(cause) => Err(PodbeanError::NetworkError(cause)),
            Ok(response) => {
                if response.succeeded() {
                    Ok(file_key)
                } else {
                    Err(handle_error_response(response))
                }
            },
        }
    }
}

} // verus!
