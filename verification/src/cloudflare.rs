//! The Cloudflare provider: how one record update proceeds, request by request.
//!
//! The HTTP client is the caller's. An update begins with
//! [`CloudflareProvider::begin_update`]; the caller sends each [`ApiRequest`],
//! with the provider's token, and hands what came back to
//! [`RecordUpdate::advance`] until it is told [`ApiRequest::Done`].

use crate::config::{ProviderConfig, RecordType};
use crate::error::{Error, ErrorView};
use crate::ip::IpAddress;
use crate::registry::ProviderRegistry;
use crate::text::{byte_len, chars_of, join, lowercase_of, pieces, same, split, to_lowercase};
use crate::traits::UpdateResult;
use vstd::prelude::*;

verus! {

/// Seconds after which a request to the API is given up.
pub const DEFAULT_HTTP_TIMEOUT_SECS: u64 = 30;

/// The root of the API.
pub open spec fn api_base() -> Seq<char> {
    "https://api.cloudflare.com/client/v4"@
}

/// The name that errors of this provider are attributed to.
pub open spec fn provider_tag() -> Seq<char> {
    "cloudflare"@
}

/// The type of the record that holds `ip`: `A` for IPv4, `AAAA` for IPv6.
pub open spec fn spec_record_type_for(ip: IpAddress) -> RecordType {
    match ip {
        IpAddress::V4(_) => RecordType::A,
        IpAddress::V6(_) => RecordType::Aaaa,
    }
}

/// The type of the record that holds `ip`: `A` for IPv4, `AAAA` for IPv6.
#[verifier::when_used_as_spec(spec_record_type_for)]
pub fn record_type_for(ip: IpAddress) -> (t: RecordType)
    ensures
        t == spec_record_type_for(ip),
{
    match ip {
        IpAddress::V4(_) => RecordType::A,
        IpAddress::V6(_) => RecordType::Aaaa,
    }
}

/// How the API writes the type of the record that holds `ip`.
pub open spec fn type_text(ip: IpAddress) -> Seq<char> {
    match ip {
        IpAddress::V4(_) => "A"@,
        IpAddress::V6(_) => "AAAA"@,
    }
}

/// How the API writes the type of the record that holds `ip`.
pub fn type_text_of(ip: IpAddress) -> (t: &'static str)
    ensures
        t@ == type_text(ip),
{
    match ip {
        IpAddress::V4(_) => "A",
        IpAddress::V6(_) => "AAAA",
    }
}

/// The zone that a domain is looked up in, if the domain has at least two labels:
/// its last two labels, or, where it has three or more and the last but one
/// takes at most three bytes, the two labels before the last.
pub open spec fn zone_name_of(domain: Seq<char>) -> Option<Seq<char>> {
    let parts = pieces(domain, '.');
    let n = parts.len() as int;
    if n < 2 {
        None
    } else if n >= 3 && byte_len(parts[n - 2]) <= 3 {
        Some(parts[n - 3] + "."@ + parts[n - 2])
    } else {
        Some(parts[n - 2] + "."@ + parts[n - 1])
    }
}

/// The zone that `domain` is looked up in; a domain of a single label has none.
pub fn zone_name(domain: &str) -> (r: Result<String, Error>)
    ensures
        r is Ok <==> zone_name_of(domain@) is Some,
        r matches Ok(zone) ==> Some(zone@) == zone_name_of(domain@),
        r matches Err(e) ==> e@ == ErrorView::Config("Invalid domain name: "@ + domain@),
{
    let chars = chars_of(domain);
    let bounds = split(&chars, '.');
    let n = bounds.len();
    if n < 2 {
        return Err(Error::Config(join("Invalid domain name: ", domain)));
    }
    let (a2, b2) = bounds[n - 2];
    let second_last = domain.substring_char(a2, b2);
    if n >= 3 && second_last.as_bytes().len() <= 3 {
        let (a3, b3) = bounds[n - 3];
        let third_last = domain.substring_char(a3, b3);
        Ok(join(third_last, ".").concat(second_last))
    } else {
        let (a1, b1) = bounds[n - 1];
        let last = domain.substring_char(a1, b1);
        Ok(join(second_last, ".").concat(last))
    }
}

/// Whether the provider can hold a record named `name`: the name has a dot and
/// takes at most 253 bytes.
pub open spec fn supported_name(name: Seq<char>) -> bool {
    name.contains('.') && byte_len(name) <= 253
}

/// Whether a lowercased mode asks for a dry run.
pub fn is_dry_run(mode_lower: &str) -> (r: bool)
    ensures
        r == (mode_lower@ == "dry-run"@),
{
    same(mode_lower, "dry-run")
}

/// Where an update stands, and which answer it is waiting for.
#[derive(Clone, Copy, Debug, PartialEq, Eq, Structural)]
pub enum Stage {
    /// The zone is looked up by name.
    LookingUpZone,
    /// The record is looked up by name and type.
    LookingUpRecord,
    /// The record is read.
    ReadingRecord,
    /// The record is written.
    Writing,
    /// The update is over.
    Finished,
}

/// What a request to the API gave.
#[derive(Debug)]
pub enum ApiResponse {
    /// The request failed; `error` says how.
    Failed { error: String },
    /// The API answered with the status `code`, which is no success; `status` is
    /// the status line and `body` the body of the answer.
    Rejected { code: u16, status: String, body: String },
    /// The answer is no JSON document; `error` says how.
    Unparsable { error: String },
    /// The answer to a lookup: the `id` of each element of `result`, where it is a
    /// string; `None` where `result` is no array.
    Listed { ids: Option<Vec<Option<String>>> },
    /// The answer to reading a record: `result.content`, where it is a string, and
    /// the address that it denotes, if it denotes one.
    Record { content: Option<String>, address: Option<IpAddress> },
    /// The answer to a write that succeeded.
    Accepted,
}

/// An [`ApiResponse`] with its texts as character sequences.
pub enum ApiResponseView {
    Failed { error: Seq<char> },
    Rejected { code: u16, status: Seq<char>, body: Seq<char> },
    Unparsable { error: Seq<char> },
    Listed { ids: Option<Seq<Option<Seq<char>>>> },
    Record { content: Option<Seq<char>>, address: Option<IpAddress> },
    Accepted,
}

/// The identifiers of a listing as character sequences.
pub open spec fn ids_view(ids: Seq<Option<String>>) -> Seq<Option<Seq<char>>> {
    Seq::new(
        ids.len(),
        |i: int|
            match ids[i] {
                Some(id) => Some(id@),
                None => None,
            },
    )
}

impl View for ApiResponse {
    type V = ApiResponseView;

    open spec fn view(&self) -> ApiResponseView {
        match self {
            ApiResponse::Failed { error } => ApiResponseView::Failed { error: error@ },
            ApiResponse::Rejected { code, status, body } => ApiResponseView::Rejected {
                code: *code,
                status: status@,
                body: body@,
            },
            ApiResponse::Unparsable { error } => ApiResponseView::Unparsable { error: error@ },
            ApiResponse::Listed { ids } => ApiResponseView::Listed {
                ids: match ids {
                    Some(list) => Some(ids_view(list@)),
                    None => None,
                },
            },
            ApiResponse::Record { content, address } => ApiResponseView::Record {
                content: match content {
                    Some(text) => Some(text@),
                    None => None,
                },
                address: *address,
            },
            ApiResponse::Accepted => ApiResponseView::Accepted,
        }
    }
}

/// The one request that an update wants sent next.
#[derive(Debug)]
pub enum ApiRequest {
    /// `GET url`; answer with what came back.
    Get { url: String },
    /// `PUT url` with the address and the record type as the new content; answer
    /// with what came back.
    Put { url: String, new_ip: IpAddress, record_type: RecordType },
    /// The update is over, with this result. Nothing is answered.
    Done(Result<UpdateResult, Error>),
    /// The answer did not fit the request. Nothing has changed.
    Unexpected,
}

/// An [`ApiRequest`] with its texts as character sequences.
pub enum ApiRequestView {
    Get { url: Seq<char> },
    Put { url: Seq<char>, new_ip: IpAddress, record_type: RecordType },
    Done(Result<UpdateResult, ErrorView>),
    Unexpected,
}

impl View for ApiRequest {
    type V = ApiRequestView;

    open spec fn view(&self) -> ApiRequestView {
        match self {
            ApiRequest::Get { url } => ApiRequestView::Get { url: url@ },
            ApiRequest::Put { url, new_ip, record_type } => ApiRequestView::Put {
                url: url@,
                new_ip: *new_ip,
                record_type: *record_type,
            },
            ApiRequest::Done(r) => ApiRequestView::Done(
                match r {
                    Ok(u) => Ok(*u),
                    Err(e) => Err(e@),
                },
            ),
            ApiRequest::Unexpected => ApiRequestView::Unexpected,
        }
    }
}

/// An update as a mathematical state machine.
pub struct UpdateModel {
    /// The record to update.
    pub record_name: Seq<char>,
    /// The address to set.
    pub new_ip: IpAddress,
    /// Whether the record is only read and never written.
    pub dry_run: bool,
    /// Where the update stands.
    pub stage: Stage,
    /// The zone that is looked up, while it is looked up.
    pub zone_name: Seq<char>,
    /// The zone's identifier, once it is known.
    pub zone_id: Seq<char>,
    /// The record's identifier, once it is known.
    pub record_id: Seq<char>,
    /// The address that the record held when it was read.
    pub current_ip: Option<IpAddress>,
}

/// An error attributed to this provider.
pub open spec fn blamed(message: Seq<char>) -> ErrorView {
    ErrorView::Provider { provider: provider_tag(), message }
}

impl UpdateModel {
    /// The URL that lists the zones named `zone_name`.
    pub open spec fn zones_url(self) -> Seq<char> {
        api_base() + "/zones?name="@ + self.zone_name
    }

    /// The URL that lists the records of the update's name and type in its zone.
    pub open spec fn records_url(self) -> Seq<char> {
        api_base() + "/zones/"@ + self.zone_id + "/dns_records?name="@ + self.record_name
            + "&type="@ + type_text(self.new_ip)
    }

    /// The URL of the update's record.
    pub open spec fn record_url(self) -> Seq<char> {
        api_base() + "/zones/"@ + self.zone_id + "/dns_records/"@ + self.record_id
    }

    /// What the stage's request is called in an error.
    pub open spec fn failure_prefix(self) -> Seq<char> {
        match self.stage {
            Stage::LookingUpZone => "Zone lookup failed: "@,
            Stage::LookingUpRecord => "Record lookup failed: "@,
            Stage::ReadingRecord => "Failed to get record: "@,
            _ => "Failed to update record: "@,
        }
    }

    /// What is missing when the stage's request is answered with 404.
    pub open spec fn missing(self) -> Seq<char> {
        match self.stage {
            Stage::LookingUpZone => "Zone not found: "@ + self.zone_name,
            Stage::LookingUpRecord => "DNS record not found: "@ + self.record_name + " (type: "@
                + type_text(self.new_ip) + ")"@,
            _ => "DNS record not found: "@ + self.record_name,
        }
    }

    /// The error for an answer with the status `code`, which is no success.
    ///
    /// 401 and 403 are failures of authentication; 404 says what was not found,
    /// but for a write, where 409 is a conflict instead; 429 is the rate limit;
    /// 500 to 599 are errors of the server; any other status is reported with
    /// the body of the answer.
    pub open spec fn rejection(self, code: u16, status: Seq<char>, body: Seq<char>) -> ErrorView {
        if code == 401 || code == 403 {
            blamed(
                "Authentication failed: Invalid API token or insufficient permissions. Status: "@
                    + status,
            )
        } else if code == 404 && self.stage != Stage::Writing {
            ErrorView::NotFound(self.missing())
        } else if code == 409 && self.stage == Stage::Writing {
            blamed("Conflict: Record is being updated by another process. Status: "@ + status)
        } else if code == 429 {
            blamed("Rate limit exceeded. Please retry later. Status: "@ + status)
        } else if 500 <= code <= 599 {
            blamed("Cloudflare server error (transient): "@ + status + " - "@ + body)
        } else {
            blamed(self.failure_prefix() + status + " - "@ + body)
        }
    }

    /// The update ends with `result`.
    pub open spec fn finish(self, result: Result<UpdateResult, ErrorView>) -> (
        UpdateModel,
        ApiRequestView,
    ) {
        (UpdateModel { stage: Stage::Finished, ..self }, ApiRequestView::Done(result))
    }

    /// What a lookup makes of a listing: the first identifier, or the error.
    pub open spec fn first_id(self, ids: Option<Seq<Option<Seq<char>>>>) -> Result<
        Seq<char>,
        ErrorView,
    > {
        match ids {
            None => Err(blamed("Invalid response format: result is not an array"@)),
            Some(list) => if list.len() == 0 {
                Err(ErrorView::NotFound(self.missing()))
            } else {
                match list[0] {
                    Some(id) => Ok(id),
                    None => Err(
                        blamed(
                            if self.stage == Stage::LookingUpZone {
                                "Invalid response format: zone.id is not a string"@
                            } else {
                                "Invalid response format: record.id is not a string"@
                            },
                        ),
                    ),
                }
            },
        }
    }

    /// One step of an update: the state after `response`, and the next request.
    ///
    /// A request that failed, an answer with a status that is no success, and an
    /// answer that is no JSON end the update with an error. Else the zone is looked
    /// up, then the record, then the record is read. If it holds the new address
    /// the update ends with `Unchanged`. In a dry run it ends with `Updated`
    /// without a write. Else the record is written, and the update ends with
    /// `Updated` when the write is accepted.
    pub open spec fn step(self, response: ApiResponseView) -> (UpdateModel, ApiRequestView) {
        if self.stage == Stage::Finished {
            (self, ApiRequestView::Unexpected)
        } else {
            match response {
                ApiResponseView::Failed { error } => self.finish(
                    Err(blamed("HTTP request failed: "@ + error)),
                ),
                ApiResponseView::Rejected { code, status, body } => self.finish(
                    Err(self.rejection(code, status, body)),
                ),
                ApiResponseView::Unparsable { error } => self.finish(
                    Err(blamed("Failed to parse response: "@ + error)),
                ),
                ApiResponseView::Listed { ids } => match self.stage {
                    Stage::LookingUpZone => match self.first_id(ids) {
                        Ok(id) => {
                            let next = UpdateModel {
                                stage: Stage::LookingUpRecord,
                                zone_id: id,
                                ..self
                            };
                            (next, ApiRequestView::Get { url: next.records_url() })
                        },
                        Err(e) => self.finish(Err(e)),
                    },
                    Stage::LookingUpRecord => match self.first_id(ids) {
                        Ok(id) => {
                            let next = UpdateModel {
                                stage: Stage::ReadingRecord,
                                record_id: id,
                                ..self
                            };
                            (next, ApiRequestView::Get { url: next.record_url() })
                        },
                        Err(e) => self.finish(Err(e)),
                    },
                    _ => (self, ApiRequestView::Unexpected),
                },
                ApiResponseView::Record { content, address } => if self.stage
                    != Stage::ReadingRecord {
                    (self, ApiRequestView::Unexpected)
                } else if content is None {
                    self.finish(Err(blamed("Invalid response format: content is not a string"@)))
                } else if address is None {
                    self.finish(
                        Err(blamed("Invalid IP in response: invalid IP address syntax"@)),
                    )
                } else if address == Some(self.new_ip) {
                    self.finish(Ok(UpdateResult::Unchanged { current_ip: self.new_ip }))
                } else if self.dry_run {
                    self.finish(
                        Ok(UpdateResult::Updated { previous_ip: address, new_ip: self.new_ip }),
                    )
                } else {
                    (
                        UpdateModel { stage: Stage::Writing, current_ip: address, ..self },
                        ApiRequestView::Put {
                            url: self.record_url(),
                            new_ip: self.new_ip,
                            record_type: spec_record_type_for(self.new_ip),
                        },
                    )
                },
                ApiResponseView::Accepted => if self.stage == Stage::Writing {
                    self.finish(
                        Ok(
                            UpdateResult::Updated {
                                previous_ip: self.current_ip,
                                new_ip: self.new_ip,
                            },
                        ),
                    )
                } else {
                    (self, ApiRequestView::Unexpected)
                },
            }
        }
    }
}

/// One update of one record in progress. Its view is the [`UpdateModel`] it stands for.
#[derive(Debug)]
pub struct RecordUpdate {
    record_name: String,
    new_ip: IpAddress,
    dry_run: bool,
    stage: Stage,
    zone_name: String,
    zone_id: String,
    record_id: String,
    current_ip: Option<IpAddress>,
}

impl View for RecordUpdate {
    type V = UpdateModel;

    closed spec fn view(&self) -> UpdateModel {
        UpdateModel {
            record_name: self.record_name@,
            new_ip: self.new_ip,
            dry_run: self.dry_run,
            stage: self.stage,
            zone_name: self.zone_name@,
            zone_id: self.zone_id@,
            record_id: self.record_id@,
            current_ip: self.current_ip,
        }
    }
}

/// The error attributed to this provider with the message `message`.
fn blame(message: String) -> (e: Error)
    ensures
        e@ == blamed(message@),
{
    Error::Provider { provider: String::from_str("cloudflare"), message }
}

impl RecordUpdate {
    /// Where the update stands.
    pub fn stage(&self) -> (s: Stage)
        ensures
            s == self@.stage,
    {
        self.stage
    }

    /// The URL that lists the zones.
    fn zones_url(&self) -> (url: String)
        ensures
            url@ == self@.zones_url(),
    {
        join("https://api.cloudflare.com/client/v4", "/zones?name=").concat(self.zone_name.as_str())
    }

    /// The URL that lists the records.
    fn records_url(&self) -> (url: String)
        ensures
            url@ == self@.records_url(),
    {
        join("https://api.cloudflare.com/client/v4", "/zones/").concat(self.zone_id.as_str()).concat(
            "/dns_records?name=",
        ).concat(self.record_name.as_str()).concat("&type=").concat(type_text_of(self.new_ip))
    }

    /// The URL of the record.
    fn record_url(&self) -> (url: String)
        ensures
            url@ == self@.record_url(),
    {
        join("https://api.cloudflare.com/client/v4", "/zones/").concat(self.zone_id.as_str()).concat(
            "/dns_records/",
        ).concat(self.record_id.as_str())
    }

    /// What is missing when the stage's request is answered with 404.
    fn missing(&self) -> (text: String)
        ensures
            text@ == self@.missing(),
    {
        match self.stage {
            Stage::LookingUpZone => join("Zone not found: ", self.zone_name.as_str()),
            Stage::LookingUpRecord => join("DNS record not found: ", self.record_name.as_str()).concat(
                " (type: ",
            ).concat(type_text_of(self.new_ip)).concat(")"),
            _ => join("DNS record not found: ", self.record_name.as_str()),
        }
    }

    /// The error for an answer with the status `code`, which is no success.
    pub fn rejection(&self, code: u16, status: &str, body: &str) -> (e: Error)
        ensures
            e@ == self@.rejection(code, status@, body@),
    {
        let writing = match self.stage {
            Stage::Writing => true,
            _ => false,
        };
        if code == 401 || code == 403 {
            blame(
                join(
                    "Authentication failed: Invalid API token or insufficient permissions. Status: ",
                    status,
                ),
            )
        } else if code == 404 && !writing {
            Error::NotFound(self.missing())
        } else if code == 409 && writing {
            blame(join("Conflict: Record is being updated by another process. Status: ", status))
        } else if code == 429 {
            blame(join("Rate limit exceeded. Please retry later. Status: ", status))
        } else if 500 <= code && code <= 599 {
            blame(join("Cloudflare server error (transient): ", status).concat(" - ").concat(body))
        } else {
            let prefix = match self.stage {
                Stage::LookingUpZone => "Zone lookup failed: ",
                Stage::LookingUpRecord => "Record lookup failed: ",
                Stage::ReadingRecord => "Failed to get record: ",
                _ => "Failed to update record: ",
            };
            blame(join(prefix, status).concat(" - ").concat(body))
        }
    }

    /// What a lookup makes of a listing: the first identifier, or the error.
    fn first_id(&self, ids: &Option<Vec<Option<String>>>) -> (r: Result<String, Error>)
        ensures
            r is Ok <==> self@.first_id(
                match ids {
                    Some(list) => Some(ids_view(list@)),
                    None => None,
                },
            ) is Ok,
            r matches Ok(id) ==> self@.first_id(
                match ids {
                    Some(list) => Some(ids_view(list@)),
                    None => None,
                },
            ) == Ok::<Seq<char>, ErrorView>(id@),
            r matches Err(e) ==> self@.first_id(
                match ids {
                    Some(list) => Some(ids_view(list@)),
                    None => None,
                },
            ) == Err::<Seq<char>, ErrorView>(e@),
    {
        match ids {
            None => Err(
                blame(String::from_str("Invalid response format: result is not an array")),
            ),
            Some(list) => {
                if list.len() == 0 {
                    Err(Error::NotFound(self.missing()))
                } else {
                    match &list[0] {
                        Some(id) => Ok(id.clone()),
                        None => match self.stage {
                            Stage::LookingUpZone => Err(
                                blame(
                                    String::from_str(
                                        "Invalid response format: zone.id is not a string",
                                    ),
                                ),
                            ),
                            _ => Err(
                                blame(
                                    String::from_str(
                                        "Invalid response format: record.id is not a string",
                                    ),
                                ),
                            ),
                        },
                    }
                }
            },
        }
    }

    /// Ends the update with `result`.
    fn finish(&mut self, result: Result<UpdateResult, Error>) -> (request: ApiRequest)
        ensures
            (final(self)@, request@) == old(self)@.finish(
                match result {
                    Ok(u) => Ok(u),
                    Err(e) => Err(e@),
                },
            ),
    {
        self.stage = Stage::Finished;
        ApiRequest::Done(result)
    }

    /// One step of the update: takes what the request before gave and hands out
    /// the next request. The update follows [`UpdateModel::step`] exactly; in a
    /// dry run it never asks for a write.
    pub fn advance(&mut self, response: ApiResponse) -> (request: ApiRequest)
        ensures
            (final(self)@, request@) == old(self)@.step(response@),
            old(self)@.dry_run ==> !(request is Put),
    {
        match self.stage {
            Stage::Finished => {
                return ApiRequest::Unexpected;
            },
            _ => {},
        }
        match response {
            ApiResponse::Failed { error } => {
                let e = blame(join("HTTP request failed: ", error.as_str()));
                self.finish(Err(e))
            },
            ApiResponse::Rejected { code, status, body } => {
                let e = self.rejection(code, status.as_str(), body.as_str());
                self.finish(Err(e))
            },
            ApiResponse::Unparsable { error } => {
                let e = blame(join("Failed to parse response: ", error.as_str()));
                self.finish(Err(e))
            },
            ApiResponse::Listed { ids } => match self.stage {
                Stage::LookingUpZone => match self.first_id(&ids) {
                    Ok(id) => {
                        self.zone_id = id;
                        self.stage = Stage::LookingUpRecord;
                        ApiRequest::Get { url: self.records_url() }
                    },
                    Err(e) => self.finish(Err(e)),
                },
                Stage::LookingUpRecord => match self.first_id(&ids) {
                    Ok(id) => {
                        self.record_id = id;
                        self.stage = Stage::ReadingRecord;
                        ApiRequest::Get { url: self.record_url() }
                    },
                    Err(e) => self.finish(Err(e)),
                },
                _ => ApiRequest::Unexpected,
            },
            ApiResponse::Record { content, address } => {
                match self.stage {
                    Stage::ReadingRecord => {},
                    _ => {
                        return ApiRequest::Unexpected;
                    },
                }
                if content.is_none() {
                    let e = blame(
                        String::from_str("Invalid response format: content is not a string"),
                    );
                    return self.finish(Err(e));
                }
                match address {
                    None => {
                        let e = blame(
                            String::from_str("Invalid IP in response: invalid IP address syntax"),
                        );
                        self.finish(Err(e))
                    },
                    Some(current) => {
                        if current == self.new_ip {
                            self.finish(Ok(UpdateResult::Unchanged { current_ip: current }))
                        } else if self.dry_run {
                            self.finish(
                                Ok(
                                    UpdateResult::Updated {
                                        previous_ip: Some(current),
                                        new_ip: self.new_ip,
                                    },
                                ),
                            )
                        } else {
                            let url = self.record_url();
                            self.current_ip = Some(current);
                            self.stage = Stage::Writing;
                            ApiRequest::Put {
                                url,
                                new_ip: self.new_ip,
                                record_type: record_type_for(self.new_ip),
                            }
                        }
                    },
                }
            },
            ApiResponse::Accepted => match self.stage {
                Stage::Writing => {
                    let result = UpdateResult::Updated {
                        previous_ip: self.current_ip,
                        new_ip: self.new_ip,
                    };
                    self.finish(Ok(result))
                },
                _ => ApiRequest::Unexpected,
            },
        }
    }
}

/// The provider's settings. The token is kept out of every text that the
/// provider gives of itself.
pub struct CloudflareProvider {
    /// The API token. It is never shown: see [`CloudflareProvider::redacted`].
    pub api_token: String,
    /// The zone, if it is not to be looked up.
    pub zone_id: Option<String>,
    /// The account, if any.
    pub account_id: Option<String>,
    /// Whether records are only read and never written.
    pub dry_run: bool,
}

/// How an optional text is shown.
pub open spec fn shown(value: Option<String>) -> Seq<char> {
    match value {
        Some(text) => "Some("@ + text@ + ")"@,
        None => "None"@,
    }
}

/// How an optional text is shown.
fn show(value: &Option<String>) -> (text: String)
    ensures
        text@ == shown(*value),
{
    match value {
        Some(text) => join("Some(", text.as_str()).concat(")"),
        None => String::from_str("None"),
    }
}

/// How a provider with these settings describes itself. The token is no part of
/// the settings that are described.
pub open spec fn description(zone_id: Option<String>, account_id: Option<String>, dry_run: bool) -> Seq<
    char,
> {
    "CloudflareProvider { api_token: <REDACTED>, zone_id: "@ + shown(zone_id) + ", account_id: "@
        + shown(account_id) + ", dry_run: "@ + if dry_run {
        "true"@
    } else {
        "false"@
    } + " }"@
}

impl CloudflareProvider {
    /// A provider with the token `api_token`, which must not be empty.
    pub fn new(api_token: &str, zone_id: Option<String>, account_id: Option<String>, dry_run: bool) -> (p:
        CloudflareProvider)
        requires
            api_token@.len() > 0,
        ensures
            p.api_token@ == api_token@,
            p.zone_id == zone_id,
            p.account_id == account_id,
            p.dry_run == dry_run,
    {
        CloudflareProvider { api_token: String::from_str(api_token), zone_id, account_id, dry_run }
    }

    /// A provider that writes records.
    pub fn new_live(api_token: &str, zone_id: Option<String>, account_id: Option<String>) -> (p:
        CloudflareProvider)
        requires
            api_token@.len() > 0,
        ensures
            p.api_token@ == api_token@,
            p.zone_id == zone_id,
            p.account_id == account_id,
            !p.dry_run,
    {
        CloudflareProvider::new(api_token, zone_id, account_id, false)
    }

    /// A provider that only reads records and reports what it would write.
    pub fn new_dry_run(api_token: &str, zone_id: Option<String>, account_id: Option<String>) -> (p:
        CloudflareProvider)
        requires
            api_token@.len() > 0,
        ensures
            p.api_token@ == api_token@,
            p.zone_id == zone_id,
            p.account_id == account_id,
            p.dry_run,
    {
        CloudflareProvider::new(api_token, zone_id, account_id, true)
    }

    /// The provider's name.
    pub fn provider_name(&self) -> (name: &'static str)
        ensures
            name@ == provider_tag(),
    {
        "cloudflare"
    }

    /// Whether the provider can hold a record named `record_name`: the name has a
    /// dot and takes at most 253 bytes.
    pub fn supports_record(&self, record_name: &str) -> (r: bool)
        ensures
            r == supported_name(record_name@),
    {
        if record_name.as_bytes().len() > 253 {
            return false;
        }
        let chars = chars_of(record_name);
        let n = chars.len();
        let mut i: usize = 0;
        while i < n
            invariant
                n == chars@.len(),
                i <= n,
                chars@ == record_name@,
                byte_len(record_name@) <= 253,
                forall|j: int| 0 <= j < i ==> chars@[j] != '.',
            decreases n - i,
        {
            if chars[i] == '.' {
                assert(record_name@[i as int] == '.');
                return true;
            }
            i += 1;
        }
        false
    }

    /// How the provider describes itself, in place of a debug representation:
    /// every setting but the token, which is shown as `<REDACTED>`.
    pub fn redacted(&self) -> (text: String)
        ensures
            text@ == description(self.zone_id, self.account_id, self.dry_run),
    {
        let zone = show(&self.zone_id);
        let account = show(&self.account_id);
        join("CloudflareProvider { api_token: <REDACTED>, zone_id: ", zone.as_str()).concat(
            ", account_id: ",
        ).concat(account.as_str()).concat(", dry_run: ").concat(
            if self.dry_run {
                "true"
            } else {
                "false"
            },
        ).concat(" }")
    }

    /// Reading a record's metadata is not offered by this provider.
    pub fn get_record(&self, record_name: &str) -> (r: Result<crate::traits::RecordMetadata, Error>)
        ensures
            r matches Err(e) && e@ == ErrorView::NotFound("get_record not implemented"@),
    {
        Err(Error::not_found("get_record not implemented"))
    }

    /// Begins the update of `record_name` to `new_ip`.
    ///
    /// With a configured zone the record is looked up at once. Without, the zone
    /// is looked up first, by the name that [`zone_name_of`] derives from the
    /// record's; a record name of a single label ends the update with an error.
    pub fn begin_update(&self, record_name: &str, new_ip: IpAddress) -> (r: (RecordUpdate, ApiRequest))
        ensures
            r.0@.record_name == record_name@,
            r.0@.new_ip == new_ip,
            r.0@.dry_run == self.dry_run,
            r.0@.current_ip is None,
            match self.zone_id {
                Some(zone) => {
                    &&& r.0@.stage == Stage::LookingUpRecord
                    &&& r.0@.zone_id == zone@
                    &&& r.1@ == (ApiRequestView::Get { url: r.0@.records_url() })
                },
                None => match zone_name_of(record_name@) {
                    Some(zone) => {
                        &&& r.0@.stage == Stage::LookingUpZone
                        &&& r.0@.zone_name == zone
                        &&& r.1@ == (ApiRequestView::Get { url: r.0@.zones_url() })
                    },
                    None => {
                        &&& r.0@.stage == Stage::Finished
                        &&& r.1@ == ApiRequestView::Done(
                            Err(ErrorView::Config("Invalid domain name: "@ + record_name@)),
                        )
                    },
                },
            },
    {
        let mut update = RecordUpdate {
            record_name: String::from_str(record_name),
            new_ip,
            dry_run: self.dry_run,
            stage: Stage::LookingUpZone,
            zone_name: String::new(),
            zone_id: String::new(),
            record_id: String::new(),
            current_ip: None,
        };
        match &self.zone_id {
            Some(zone) => {
                update.zone_id = zone.clone();
                update.stage = Stage::LookingUpRecord;
                let url = update.records_url();
                (update, ApiRequest::Get { url })
            },
            None => match zone_name(record_name) {
                Ok(zone) => {
                    update.zone_name = zone;
                    let url = update.zones_url();
                    (update, ApiRequest::Get { url })
                },
                Err(e) => {
                    update.stage = Stage::Finished;
                    (update, ApiRequest::Done(Err(e)))
                },
            },
        }
    }
}

/// The factory of Cloudflare providers.
#[derive(Clone, Copy, Debug, PartialEq, Eq, Structural)]
pub struct CloudflareFactory;

impl CloudflareFactory {
    /// The provider for `config`, which must be a Cloudflare configuration with a
    /// token. `mode` is the operating mode that the environment asks for, if any:
    /// `dry-run`, in any case of letters, makes a provider that never writes.
    pub fn create(&self, config: &ProviderConfig, mode: Option<&str>) -> (r: Result<
        CloudflareProvider,
        Error,
    >)
        ensures
            r is Ok <==> (config is Cloudflare && config->api_token@.len() > 0),
            r matches Ok(p) ==> {
                &&& p.api_token@ == config->api_token@
                &&& p.zone_id is Some <==> config->zone_id is Some
                &&& p.zone_id is Some ==> p.zone_id->0@ == config->zone_id->0@
                &&& p.account_id is Some <==> config->account_id is Some
                &&& p.account_id is Some ==> p.account_id->0@ == config->account_id->0@
                &&& p.dry_run == (mode is Some && lowercase_of(mode->0@) == "dry-run"@)
            },
            r matches Err(e) ==> e@ == ErrorView::Config(
                if config is Cloudflare {
                    "Cloudflare API token is required"@
                } else {
                    "Invalid config for Cloudflare provider"@
                },
            ),
    {
        match config {
            ProviderConfig::Cloudflare { api_token, zone_id, account_id } => {
                if api_token.as_str().unicode_len() == 0 {
                    return Err(Error::config("Cloudflare API token is required"));
                }
                let dry_run = match mode {
                    Some(text) => {
                        let lower = to_lowercase(text);
                        is_dry_run(lower.as_str())
                    },
                    None => false,
                };
                let zone_id = match zone_id {
                    Some(zone) => Some(zone.clone()),
                    None => None,
                };
                let account_id = match account_id {
                    Some(account) => Some(account.clone()),
                    None => None,
                };
                Ok(CloudflareProvider::new(api_token.as_str(), zone_id, account_id, dry_run))
            },
            _ => Err(Error::config("Invalid config for Cloudflare provider")),
        }
    }
}

/// Registers `factory` for providers of the type `cloudflare`.
pub fn register<P, I, S>(registry: &mut ProviderRegistry<P, I, S>, factory: P)
    requires
        old(registry).wf(),
    ensures
        final(registry).wf(),
        final(registry).providers() == old(registry).providers().insert("cloudflare"@, factory),
        final(registry).ip_sources() == old(registry).ip_sources(),
        final(registry).state_stores() == old(registry).state_stores(),
{
    registry.register_provider("cloudflare", factory);
}

} // verus!
