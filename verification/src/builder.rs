use vstd::prelude::*;

use crate::request::{
    ClientContext, ImageUpload, LensOverlayRequestId, LocaleContext, OutboundMessage,
    RequestContext, PLATFORM_WEB, SURFACE_CHROMIUM,
};

verus! {

// The request builder: pure assembly of the outbound message from an image
// and an optional language tag, plus a fresh random correlation id.

/// Relies on rand::random: draws a value from the thread-local generator.
/// Nothing is promised of the result; a fresh draw is made on every call.
pub assume_specification<T>[ rand::random::<T> ]() -> (r: T)
    where
        rand::distributions::Standard: rand::distributions::Distribution<T>,
;

/// The language the request is made with: the given tag, or "en" when none
/// was given.
pub open spec fn spec_language(lang: Option<&str>) -> Seq<char> {
    match lang {
        Some(l) => l@,
        None => "en"@,
    }
}

/// Everything `build` promises of the message except the correlation id:
/// sequence numbers fixed to 1, web/Chromium client constants, the chosen
/// language, the fixed region and time zone, and the image embedded
/// unchanged as the sole payload.
pub open spec fn well_built(m: OutboundMessage, image: ImageUpload, lang: Option<&str>) -> bool {
    &&& m.request_context.request_id.sequence_id == 1
    &&& m.request_context.request_id.image_sequence_id == 1
    &&& m.request_context.client_context.platform == PLATFORM_WEB
    &&& m.request_context.client_context.surface == SURFACE_CHROMIUM
    &&& m.request_context.client_context.locale_context.language@ == spec_language(lang)
    &&& m.request_context.client_context.locale_context.region@ == "US"@
    &&& m.request_context.client_context.locale_context.time_zone@ == "America/Los_Angeles"@
    &&& m.image.bytes@ == image.bytes@
    &&& m.image.width == image.width
    &&& m.image.height == image.height
}

/// Assembles the outbound message around a caller-chosen correlation id.
/// Pure data assembly: no error conditions, no I/O.
pub fn build_with_uuid(image: ImageUpload, lang: Option<&str>, uuid: u64) -> (m: OutboundMessage)
    ensures
        well_built(m, image, lang),
        m.request_context.request_id.uuid == uuid,
{
    let language: String = match lang {
        Some(l) => l.to_owned(),
        None => "en".to_owned(),
    };
    OutboundMessage {
        request_context: RequestContext {
            request_id: LensOverlayRequestId { uuid, sequence_id: 1, image_sequence_id: 1 },
            client_context: ClientContext {
                platform: PLATFORM_WEB,
                surface: SURFACE_CHROMIUM,
                locale_context: LocaleContext {
                    language,
                    region: "US".to_owned(),
                    time_zone: "America/Los_Angeles".to_owned(),
                },
            },
        },
        image,
    }
}

/// Assembles the outbound message with a fresh random 64-bit correlation
/// id, as one request to the service expects.
pub fn build(image: ImageUpload, lang: Option<&str>) -> (m: OutboundMessage)
    ensures
        well_built(m, image, lang),
{
    let uuid: u64 = rand::random::<u64>();
    build_with_uuid(image, lang, uuid)
}

} // verus!
