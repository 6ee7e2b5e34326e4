use vstd::prelude::*;

verus! {

/// The closed set of status codes that every call into the engine returns.
#[derive(Debug, Clone, Copy, PartialEq, Eq, Structural)]
pub enum ResultCode {
    /// Success
    Success,
    /// Failed to load Open JTalk dictionary file
    NotLoadedOpenjtalkDictError,
    /// Failed to load the model
    LoadModelError,
    /// Failed to get supported device information
    GetSupportedDevicesError,
    /// GPU mode is not supported
    GpuSupportError,
    /// Failed to load meta information
    LoadMetasError,
    /// Status is uninitialized
    UninitializedStatusError,
    /// Invalid speaker ID specified
    InvalidSpeakerIdError,
    /// Invalid model index specified
    InvalidModelIndexError,
    /// Inference failed
    InferenceError,
    /// Failed to output context labels
    ExtractFullContextLabelError,
    /// Invalid UTF-8 string input
    InvalidUtf8InputError,
    /// Failed to parse Aquestalk-style text
    ParseKanaError,
    /// Invalid AudioQuery
    InvalidAudioQueryError,
}

/// The integer with which the engine reports each status.
pub open spec fn spec_code(c: ResultCode) -> int {
    match c {
        ResultCode::Success => 0,
        ResultCode::NotLoadedOpenjtalkDictError => 1,
        ResultCode::LoadModelError => 2,
        ResultCode::GetSupportedDevicesError => 3,
        ResultCode::GpuSupportError => 4,
        ResultCode::LoadMetasError => 5,
        ResultCode::UninitializedStatusError => 6,
        ResultCode::InvalidSpeakerIdError => 7,
        ResultCode::InvalidModelIndexError => 8,
        ResultCode::InferenceError => 9,
        ResultCode::ExtractFullContextLabelError => 10,
        ResultCode::InvalidUtf8InputError => 11,
        ResultCode::ParseKanaError => 12,
        ResultCode::InvalidAudioQueryError => 13,
    }
}

/// An integer is a status code of the engine when some variant reports it.
pub open spec fn is_known_code(raw: int) -> bool {
    0 <= raw <= 13
}

/// The human-readable description of each status.
pub open spec fn spec_description(c: ResultCode) -> Seq<char> {
    match c {
        ResultCode::Success => "Success"@,
        ResultCode::NotLoadedOpenjtalkDictError => "Failed to load Open JTalk dictionary file"@,
        ResultCode::LoadModelError => "Failed to load the model"@,
        ResultCode::GetSupportedDevicesError => "Failed to get supported device information"@,
        ResultCode::GpuSupportError => "GPU mode is not supported"@,
        ResultCode::LoadMetasError => "Failed to load meta information"@,
        ResultCode::UninitializedStatusError => "Status is uninitialized"@,
        ResultCode::InvalidSpeakerIdError => "Invalid speaker ID specified"@,
        ResultCode::InvalidModelIndexError => "Invalid model index specified"@,
        ResultCode::InferenceError => "Inference failed"@,
        ResultCode::ExtractFullContextLabelError => "Failed to output context labels"@,
        ResultCode::InvalidUtf8InputError => "Invalid UTF-8 string input"@,
        ResultCode::ParseKanaError => "Failed to parse Aquestalk-style text"@,
        ResultCode::InvalidAudioQueryError => "Invalid AudioQuery"@,
    }
}

impl ResultCode {
    /// The integer with which the engine reports this status.
    pub fn code(&self) -> (r: i32)
        ensures
            r as int == spec_code(*self),
    {
        match self {
            ResultCode::Success => 0,
            ResultCode::NotLoadedOpenjtalkDictError => 1,
            ResultCode::LoadModelError => 2,
            ResultCode::GetSupportedDevicesError => 3,
            ResultCode::GpuSupportError => 4,
            ResultCode::LoadMetasError => 5,
            ResultCode::UninitializedStatusError => 6,
            ResultCode::InvalidSpeakerIdError => 7,
            ResultCode::InvalidModelIndexError => 8,
            ResultCode::InferenceError => 9,
            ResultCode::ExtractFullContextLabelError => 10,
            ResultCode::InvalidUtf8InputError => 11,
            ResultCode::ParseKanaError => 12,
            ResultCode::InvalidAudioQueryError => 13,
        }
    }

    /// Reads an integer returned by the engine: the status that reports it, or
    /// `None` for an integer outside the closed set.
    pub fn from_raw(raw: i32) -> (r: Option<ResultCode>)
        ensures
            r is Some <==> is_known_code(raw as int),
            r matches Some(c) ==> spec_code(c) == raw as int,
    {
        match raw {
            0 => Some(ResultCode::Success),
            1 => Some(ResultCode::NotLoadedOpenjtalkDictError),
            2 => Some(ResultCode::LoadModelError),
            3 => Some(ResultCode::GetSupportedDevicesError),
            4 => Some(ResultCode::GpuSupportError),
            5 => Some(ResultCode::LoadMetasError),
            6 => Some(ResultCode::UninitializedStatusError),
            7 => Some(ResultCode::InvalidSpeakerIdError),
            8 => Some(ResultCode::InvalidModelIndexError),
            9 => Some(ResultCode::InferenceError),
            10 => Some(ResultCode::ExtractFullContextLabelError),
            11 => Some(ResultCode::InvalidUtf8InputError),
            12 => Some(ResultCode::ParseKanaError),
            13 => Some(ResultCode::InvalidAudioQueryError),
            _ => None,
        }
    }

    /// The human-readable description of this status.
    pub fn description(&self) -> (r: &'static str)
        ensures
            r@ == spec_description(*self),
    {
        match self {
            ResultCode::Success => "Success",
            ResultCode::NotLoadedOpenjtalkDictError => "Failed to load Open JTalk dictionary file",
            ResultCode::LoadModelError => "Failed to load the model",
            ResultCode::GetSupportedDevicesError => "Failed to get supported device information",
            ResultCode::GpuSupportError => "GPU mode is not supported",
            ResultCode::LoadMetasError => "Failed to load meta information",
            ResultCode::UninitializedStatusError => "Status is uninitialized",
            ResultCode::InvalidSpeakerIdError => "Invalid speaker ID specified",
            ResultCode::InvalidModelIndexError => "Invalid model index specified",
            ResultCode::InferenceError => "Inference failed",
            ResultCode::ExtractFullContextLabelError => "Failed to output context labels",
            ResultCode::InvalidUtf8InputError => "Invalid UTF-8 string input",
            ResultCode::ParseKanaError => "Failed to parse Aquestalk-style text",
            ResultCode::InvalidAudioQueryError => "Invalid AudioQuery",
        }
    }

    /// The description of this status as an owned string.
    pub fn to_string(&self) -> (r: String)
        ensures
            r@ == spec_description(*self),
    {
        String::from_str(self.description())
    }

    /// A status as the outcome of a call: `Ok` for success, the status itself
    /// as the error otherwise.
    pub fn into_result(self) -> (r: Result<(), ResultCode>)
        ensures
            r is Ok <==> self == ResultCode::Success,
            r matches Err(e) ==> e == self,
    {
        match self {
            ResultCode::Success => Ok(()),
            e => Err(e),
        }
    }
}

} // verus!
