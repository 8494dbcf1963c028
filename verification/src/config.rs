//! The configuration document that a submit-connection request leaves on
//! the device for the application that runs once the network is joined.

use vstd::prelude::*;
use vstd::string::*;

verus! {

/// Where the document is kept. Each accepted request overwrites it.
pub const CONFIG_PATH: &'static str = "/data/kit_config.json";

/// The document for the four identity fields. They are embedded as they
/// came, between the fixed parts; nothing in them is escaped.
pub open spec fn document_text(
    api: Seq<char>,
    ws: Seq<char>,
    serial: Seq<char>,
    secret: Seq<char>,
) -> Seq<char> {
    "{\n    \"api\": {\n        \"root\": \""@ + api
        + "\"\n    },\n    \"websockets\": {\n        \"url\": \""@ + ws
        + "\"\n    },\n    \"auth\": {\n        \"serial\": \""@ + serial
        + "\",\n        \"secret\": \""@ + secret
        + "\"\n    },\n    \"debug\": {\n\t\t\"level\": \"INFO\",\n\t\t\"peripheral_display\": {\n\t\t    \"module_name\": \"astroplant_peripheral_device_library.lcd\",\n\t\t    \"class_name\": \"LCD\",\n\t\t    \"parameters\": {\n\t\t        \"i2c_address\": \"0x3f\"\n\t\t    }\n\t\t}\n\t    }\n\t}"@
}

/// The document for the four identity fields.
pub fn document(api: &str, ws: &str, serial: &str, secret: &str) -> (text: String)
    ensures
        text@ == document_text(api@, ws@, serial@, secret@),
{
    let mut text = String::from_str("{\n    \"api\": {\n        \"root\": \"");
    text.append(api);
    text.append("\"\n    },\n    \"websockets\": {\n        \"url\": \"");
    text.append(ws);
    text.append("\"\n    },\n    \"auth\": {\n        \"serial\": \"");
    text.append(serial);
    text.append("\",\n        \"secret\": \"");
    text.append(secret);
    text.append(
        "\"\n    },\n    \"debug\": {\n\t\t\"level\": \"INFO\",\n\t\t\"peripheral_display\": {\n\t\t    \"module_name\": \"astroplant_peripheral_device_library.lcd\",\n\t\t    \"class_name\": \"LCD\",\n\t\t    \"parameters\": {\n\t\t        \"i2c_address\": \"0x3f\"\n\t\t    }\n\t\t}\n\t    }\n\t}",
    );
    assert(text@ =~= document_text(api@, ws@, serial@, secret@));
    text
}

} // verus!
