use vstd::prelude::*;

verus! {

// The outbound wire message, as the service's schema dictates it: request
// metadata (correlation id and sequence numbers), client context
// (platform/surface constants and locale), and the single image payload.

/// Platform identifier the service expects from a web client.
pub const PLATFORM_WEB: i32 = 1;

/// Surface identifier the service expects from a Chromium-style client.
pub const SURFACE_CHROMIUM: i32 = 4;

/// The image payload handed in by the image preprocessor: encoded bytes
/// plus pixel dimensions.
#[derive(Debug, Clone)]
pub struct ImageUpload {
    pub bytes: Vec<u8>,
    pub width: i32,
    pub height: i32,
}

/// Per-request identification: a random correlation id and the sequence
/// numbers, fixed to 1 for a single-shot request.
#[derive(Debug, Clone, Copy, PartialEq, Eq, Structural)]
pub struct LensOverlayRequestId {
    pub uuid: u64,
    pub sequence_id: i32,
    pub image_sequence_id: i32,
}

/// The locale the request is made under.
#[derive(Debug, Clone)]
pub struct LocaleContext {
    pub language: String,
    pub region: String,
    pub time_zone: String,
}

/// Fixed client identification plus the locale.
#[derive(Debug, Clone)]
pub struct ClientContext {
    pub platform: i32,
    pub surface: i32,
    pub locale_context: LocaleContext,
}

/// Everything the service needs to know about the request besides the
/// image itself.
#[derive(Debug, Clone)]
pub struct RequestContext {
    pub request_id: LensOverlayRequestId,
    pub client_context: ClientContext,
}

/// The full wire request: context plus exactly one image payload.
#[derive(Debug, Clone)]
pub struct OutboundMessage {
    pub request_context: RequestContext,
    pub image: ImageUpload,
}

} // verus!
