//! Command dispatcher: from a color request to a transmitted frame.
//!
//! A request carries the bytes of a hex color string. A well-formed string
//! becomes exactly one set-color frame through the gateway; a malformed one
//! changes nothing on the wire and surfaces as `InvalidColorFormat` for the
//! caller to answer with a client error.

use crate::codec::light_frame;
use crate::codec::light_message;
use crate::color::color_of;
use crate::color::parse_color;
use crate::color::valid_color_str;
use crate::color::Color;
use crate::gateway::Gateway;
use crate::LightError;
use vstd::prelude::*;

verus! {

/// Handle one color request: parse `hex`, and on success transmit the
/// set-color frame for the parsed color through the gateway. A malformed
/// request transmits nothing.
pub fn handle_color_request(hex: &[u8], gw: &mut Gateway) -> (r: Result<Color, LightError>)
    requires
        old(gw).wf(),
    ensures
        final(gw).wf(),
        valid_color_str(hex@) ==> {
            let c = color_of(hex@);
            &&& r == Ok::<Color, LightError>(c)
            &&& final(gw).frames@ == old(gw).frames@.push(light_frame(c.r, c.g, c.b))
            &&& final(gw).wire@ == old(gw).wire@ + light_frame(c.r, c.g, c.b)
        },
        !valid_color_str(hex@) ==> {
            &&& r == Err::<Color, LightError>(LightError::InvalidColorFormat)
            &&& *final(gw) == *old(gw)
        },
{
    let color = match parse_color(hex) {
        Ok(c) => c,
        Err(e) => {
            return Err(e);
        },
    };
    let frame = light_message(color.r, color.g, color.b);
    gw.send(&frame);
    Ok(color)
}

} // verus!
