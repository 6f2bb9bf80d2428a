//! The geolocation record, the provider's answer and the lookup errors.

use vstd::prelude::*;
use vstd::string::*;

verus! {

/// The status that the provider sets on a successful answer.
pub const SUCCESS_STATUS: &'static str = "success";

/// A resolved location. Latitude and longitude are carried as the bits of the
/// provider's single-precision numbers, so that they pass through unchanged.
#[derive(Debug, PartialEq, Clone)]
pub struct GeoLocation {
    pub ip: String,
    pub country_code: String,
    pub country_name: String,
    pub region_name: String,
    pub city: String,
    pub zip_code: String,
    pub time_zone: String,
    pub latitude: u32,
    pub longitude: u32,
}

impl GeoLocation {
    /// A copy of the record, field for field.
    pub fn duplicate(&self) -> (r: GeoLocation)
        ensures
            r == *self,
    {
        GeoLocation {
            ip: self.ip.clone(),
            country_code: self.country_code.clone(),
            country_name: self.country_name.clone(),
            region_name: self.region_name.clone(),
            city: self.city.clone(),
            zip_code: self.zip_code.clone(),
            time_zone: self.time_zone.clone(),
            latitude: self.latitude,
            longitude: self.longitude,
        }
    }
}

/// The provider's answer, field for field, with fields that the answer lacked
/// left empty (or zero).
#[derive(Debug, PartialEq, Clone, Default)]
pub struct FetchResponse {
    pub status: String,
    pub message: String,
    pub query: String,
    pub country: String,
    pub country_code: String,
    pub region_name: String,
    pub city: String,
    pub zip: String,
    pub timezone: String,
    pub lat: u32,
    pub lon: u32,
}

/// Why a lookup failed.
#[derive(Debug, PartialEq, Clone)]
pub enum LookupError {
    /// The request to the provider could not be completed.
    Transport { detail: String },
    /// The provider's body could not be read as its answer.
    Decode { detail: String },
    /// The provider answered, with a status other than success.
    ProviderRejected { status: String, message: String, query: String },
}

pub open spec fn is_success_status(status: Seq<char>) -> bool {
    status == SUCCESS_STATUS@
}

/// The record that a successful answer maps to.
pub open spec fn location_of(raw: FetchResponse) -> GeoLocation {
    GeoLocation {
        ip: raw.query,
        country_code: raw.country_code,
        country_name: raw.country,
        region_name: raw.region_name,
        city: raw.city,
        zip_code: raw.zip,
        time_zone: raw.timezone,
        latitude: raw.lat,
        longitude: raw.lon,
    }
}

/// What an answer comes to: its record on success, else a rejection that
/// carries the provider's status, message and query unchanged.
pub open spec fn normalized(raw: FetchResponse) -> Result<GeoLocation, LookupError> {
    if is_success_status(raw.status@) {
        Ok(location_of(raw))
    } else {
        Err(LookupError::ProviderRejected { status: raw.status, message: raw.message, query: raw.query })
    }
}

/// The human-readable form of an error.
pub open spec fn rendered(e: LookupError) -> Seq<char> {
    match e {
        LookupError::Transport { detail } => detail@,
        LookupError::Decode { detail } => detail@,
        LookupError::ProviderRejected { status, message, query } => "fetch geo ip: status='"@ + status@
            + "', message='"@ + message@ + "' query='"@ + query@ + "'"@,
    }
}

impl LookupError {
    /// The error as one line of text.
    pub fn message(&self) -> (r: String)
        ensures
            r@ == rendered(*self),
    {
        match self {
            LookupError::Transport { detail } => detail.clone(),
            LookupError::Decode { detail } => detail.clone(),
            LookupError::ProviderRejected { status, message, query } => {
                let mut s = "fetch geo ip: status='".to_owned();
                s.append(status.as_str());
                s.append("', message='");
                s.append(message.as_str());
                s.append("' query='");
                s.append(query.as_str());
                s.append("'");
                s
            },
        }
    }
}

impl FetchResponse {
    pub fn is_success(&self) -> (r: bool)
        ensures
            r == is_success_status(self.status@),
    {
        let expected = SUCCESS_STATUS.to_owned();
        self.status == expected
    }

    pub fn is_failure(&self) -> (r: bool)
        ensures
            r == !is_success_status(self.status@),
    {
        !self.is_success()
    }
}

/// The rejection for an answer with the given status, message and query.
pub fn fetch_error(status: String, message: String, query: String) -> (r: LookupError)
    ensures
        r == (LookupError::ProviderRejected { status, message, query }),
{
    LookupError::ProviderRejected { status, message, query }
}

/// Classifies the provider's answer and maps a successful one to its record.
pub fn normalize(raw: FetchResponse) -> (r: Result<GeoLocation, LookupError>)
    ensures
        r == normalized(raw),
{
    if raw.is_failure() {
        return Err(fetch_error(raw.status, raw.message, raw.query));
    }
    Ok(GeoLocation {
        ip: raw.query,
        country_code: raw.country_code,
        country_name: raw.country,
        region_name: raw.region_name,
        city: raw.city,
        zip_code: raw.zip,
        time_zone: raw.timezone,
        latitude: raw.lat,
        longitude: raw.lon,
    })
}

/// Where the provider answers.
pub const PROVIDER_BASE_URL: &'static str = "http://ip-api.com";

/// The provider's path for looking up an address.
pub const LOOKUP_PATH: &'static str = "/json/";

/// The URL that asks the provider at `base` about `key`; an empty key asks
/// about the caller's own address.
pub fn request_url(base: &str, key: &str) -> (r: String)
    ensures
        r@ == base@ + LOOKUP_PATH@ + key@,
{
    let mut url = base.to_owned();
    url.append(LOOKUP_PATH);
    url.append(key);
    url
}

/// What the provider's outcome comes to once normalised.
pub open spec fn completed(outcome: Result<FetchResponse, LookupError>) -> Result<GeoLocation, LookupError> {
    match outcome {
        Ok(raw) => normalized(raw),
        Err(e) => Err(e),
    }
}

/// Normalises a provider answer; a failure to get one is handed on unchanged.
pub fn complete(outcome: Result<FetchResponse, LookupError>) -> (r: Result<GeoLocation, LookupError>)
    ensures
        r == completed(outcome),
{
    match outcome {
        Ok(raw) => normalize(raw),
        Err(e) => Err(e),
    }
}

} // verus!
