//! Escaping of text placed in XML documents.

use vstd::prelude::*;
use crate::text::{chars_of, push_str, push_char};

verus! {

/// The replacement text of one character: the five XML special characters
/// become entity references, every other character stands for itself.
pub open spec fn escape_char(c: char) -> Seq<char> {
    if c == '&' {
        "&amp;"@
    } else if c == '<' {
        "&lt;"@
    } else if c == '>' {
        "&gt;"@
    } else if c == '"' {
        "&quot;"@
    } else if c == '\'' {
        "&apos;"@
    } else {
        seq![c]
    }
}

/// The escaped form of a character sequence, character by character.
pub open spec fn xml_escape_seq(s: Seq<char>) -> Seq<char>
    decreases s.len(),
{
    if s.len() == 0 {
        Seq::empty()
    } else {
        xml_escape_seq(s.drop_last()) + escape_char(s.last())
    }
}

/// Whether a character may not stand bare in an attribute value or in text.
pub open spec fn is_markup_char(c: char) -> bool {
    c == '<' || c == '>' || c == '"' || c == '\''
}

proof fn lemma_escape_char_clean(c: char)
    ensures
        forall|i: int| 0 <= i < escape_char(c).len() ==> !is_markup_char(#[trigger] escape_char(c)[i]),
{
    reveal_strlit("&amp;");
    reveal_strlit("&lt;");
    reveal_strlit("&gt;");
    reveal_strlit("&quot;");
    reveal_strlit("&apos;");
}

/// Escapes `&`, `<`, `>`, `"` and `'` for use in XML text and attribute values.
pub fn xml_escape(s: &str) -> (r: String)
    ensures
        r@ == xml_escape_seq(s@),
        forall|i: int| 0 <= i < r@.len() ==> !is_markup_char(#[trigger] r@[i]),
{
    let cs = chars_of(s);
    let mut r = String::new();
    let mut i: usize = 0;
    while i < cs.len()
        invariant
            cs@ == s@,
            i <= cs@.len(),
            r@ == xml_escape_seq(cs@.take(i as int)),
            forall|k: int| 0 <= k < r@.len() ==> !is_markup_char(#[trigger] r@[k]),
        decreases cs@.len() - i,
    {
        let c = cs[i];
        let ghost before = r@;
        if c == '&' {
            push_str(&mut r, "&amp;");
        } else if c == '<' {
            push_str(&mut r, "&lt;");
        } else if c == '>' {
            push_str(&mut r, "&gt;");
        } else if c == '"' {
            push_str(&mut r, "&quot;");
        } else if c == '\'' {
            push_str(&mut r, "&apos;");
        } else {
            push_char(&mut r, c);
        }
        proof {
            let t = cs@.take(i as int + 1);
            assert(t.drop_last() =~= cs@.take(i as int));
            assert(t.last() == c);
            assert(r@ =~= before + escape_char(c));
            lemma_escape_char_clean(c);
            assert forall|k: int| 0 <= k < r@.len() implies !is_markup_char(#[trigger] r@[k]) by {
                if k >= before.len() {
                    assert(r@[k] == escape_char(c)[k - before.len()]);
                }
            }
        }
        i = i + 1;
    }
    assert(cs@.take(cs@.len() as int) =~= cs@);
    r
}


/// The device description of this media server: its name, UDN, maker and
/// model, and its two services under the base URL.
pub open spec fn device_description_xml(name: Seq<char>, udn: Seq<char>, manufacturer: Seq<char>, model: Seq<char>, base_url: Seq<char>) -> Seq<char> {
    "<?xml version=\"1.0\" encoding=\"utf-8\"?>\n<root xmlns=\"urn:schemas-upnp-org:device-1-0\" xmlns:dlna=\"urn:schemas-dlna-org:device-1-0\">\n  <specVersion>\n    <major>1</major>\n    <minor>0</minor>\n  </specVersion>\n  <URLBase>"@
        + xml_escape_seq(base_url)
        + "</URLBase>\n  <device>\n    <deviceType>urn:schemas-upnp-org:device:MediaServer:1</deviceType>\n    <dlna:X_DLNADOC>DMS-1.50</dlna:X_DLNADOC>\n    <friendlyName>"@
        + xml_escape_seq(name) + "</friendlyName>\n    <manufacturer>"@ + xml_escape_seq(manufacturer)
        + "</manufacturer>\n    <modelName>"@ + xml_escape_seq(model) + "</modelName>\n    <UDN>"@ + xml_escape_seq(udn)
        + "</UDN>\n    <serviceList>\n      <service>\n        <serviceType>urn:schemas-upnp-org:service:ContentDirectory:1</serviceType>\n        <serviceId>urn:upnp-org:serviceId:ContentDirectory</serviceId>\n        <SCPDURL>/ContentDirectory.xml</SCPDURL>\n        <controlURL>/ContentDirectory/control</controlURL>\n        <eventSubURL>/ContentDirectory/event</eventSubURL>\n      </service>\n      <service>\n        <serviceType>urn:schemas-upnp-org:service:ConnectionManager:1</serviceType>\n        <serviceId>urn:upnp-org:serviceId:ConnectionManager</serviceId>\n        <SCPDURL>/ConnectionManager.xml</SCPDURL>\n        <controlURL>/ConnectionManager/control</controlURL>\n        <eventSubURL>/ConnectionManager/event</eventSubURL>\n      </service>\n    </serviceList>\n  </device>\n</root>"@
}

/// Generate the device description of this server.
pub fn generate_device_description(info: &crate::types::ServerInfo, base_url: &str) -> (r: String)
    ensures
        r@ == device_description_xml(info.friendly_name@, info.udn@, info.manufacturer@, info.model_name@, base_url@),
{
    let mut r = String::new();
    push_str(&mut r, "<?xml version=\"1.0\" encoding=\"utf-8\"?>\n<root xmlns=\"urn:schemas-upnp-org:device-1-0\" xmlns:dlna=\"urn:schemas-dlna-org:device-1-0\">\n  <specVersion>\n    <major>1</major>\n    <minor>0</minor>\n  </specVersion>\n  <URLBase>");
    push_str(&mut r, xml_escape(base_url).as_str());
    push_str(&mut r, "</URLBase>\n  <device>\n    <deviceType>urn:schemas-upnp-org:device:MediaServer:1</deviceType>\n    <dlna:X_DLNADOC>DMS-1.50</dlna:X_DLNADOC>\n    <friendlyName>");
    push_str(&mut r, xml_escape(info.friendly_name.as_str()).as_str());
    push_str(&mut r, "</friendlyName>\n    <manufacturer>");
    push_str(&mut r, xml_escape(info.manufacturer.as_str()).as_str());
    push_str(&mut r, "</manufacturer>\n    <modelName>");
    push_str(&mut r, xml_escape(info.model_name.as_str()).as_str());
    push_str(&mut r, "</modelName>\n    <UDN>");
    push_str(&mut r, xml_escape(info.udn.as_str()).as_str());
    push_str(&mut r, "</UDN>\n    <serviceList>\n      <service>\n        <serviceType>urn:schemas-upnp-org:service:ContentDirectory:1</serviceType>\n        <serviceId>urn:upnp-org:serviceId:ContentDirectory</serviceId>\n        <SCPDURL>/ContentDirectory.xml</SCPDURL>\n        <controlURL>/ContentDirectory/control</controlURL>\n        <eventSubURL>/ContentDirectory/event</eventSubURL>\n      </service>\n      <service>\n        <serviceType>urn:schemas-upnp-org:service:ConnectionManager:1</serviceType>\n        <serviceId>urn:upnp-org:serviceId:ConnectionManager</serviceId>\n        <SCPDURL>/ConnectionManager.xml</SCPDURL>\n        <controlURL>/ConnectionManager/control</controlURL>\n        <eventSubURL>/ConnectionManager/event</eventSubURL>\n      </service>\n    </serviceList>\n  </device>\n</root>");
    r
}

/// The service description of the ContentDirectory service.
pub open spec fn content_directory_scpd_xml() -> Seq<char> {
    "<?xml version=\"1.0\" encoding=\"utf-8\"?>\n<scpd xmlns=\"urn:schemas-upnp-org:service-1-0\">\n  <specVersion><major>1</major><minor>0</minor></specVersion>\n  <actionList>\n    <action>\n      <name>Browse</name>\n      <argumentList>\n        <argument><name>ObjectID</name><direction>in</direction><relatedStateVariable>A_ARG_TYPE_ObjectID</relatedStateVariable></argument>\n        <argument><name>BrowseFlag</name><direction>in</direction><relatedStateVariable>A_ARG_TYPE_BrowseFlag</relatedStateVariable></argument>\n        <argument><name>Filter</name><direction>in</direction><relatedStateVariable>A_ARG_TYPE_Filter</relatedStateVariable></argument>\n        <argument><name>StartingIndex</name><direction>in</direction><relatedStateVariable>A_ARG_TYPE_Index</relatedStateVariable></argument>\n        <argument><name>RequestedCount</name><direction>in</direction><relatedStateVariable>A_ARG_TYPE_Count</relatedStateVariable></argument>\n        <argument><name>SortCriteria</name><direction>in</direction><relatedStateVariable>A_ARG_TYPE_SortCriteria</relatedStateVariable></argument>\n        <argument><name>Result</name><direction>out</direction><relatedStateVariable>A_ARG_TYPE_Result</relatedStateVariable></argument>\n        <argument><name>NumberReturned</name><direction>out</direction><relatedStateVariable>A_ARG_TYPE_Count</relatedStateVariable></argument>\n        <argument><name>TotalMatches</name><direction>out</direction><relatedStateVariable>A_ARG_TYPE_Count</relatedStateVariable></argument>\n        <argument><name>UpdateID</name><direction>out</direction><relatedStateVariable>A_ARG_TYPE_UpdateID</relatedStateVariable></argument>\n      </argumentList>\n    </action>\n    <action>\n      <name>GetSystemUpdateID</name>\n      <argumentList>\n        <argument><name>Id</name><direction>out</direction><relatedStateVariable>SystemUpdateID</relatedStateVariable></argument>\n      </argumentList>\n    </action>\n    <action>\n      <name>GetSearchCapabilities</name>\n      <argumentList>\n        <argument><name>SearchCaps</name><direction>out</direction><relatedStateVariable>SearchCapabilities</relatedStateVariable></argument>\n      </argumentList>\n    </action>\n    <action>\n      <name>GetSortCapabilities</name>\n      <argumentList>\n        <argument><name>SortCaps</name><direction>out</direction><relatedStateVariable>SortCapabilities</relatedStateVariable></argument>\n      </argumentList>\n    </action>\n  </actionList>\n  <serviceStateTable>\n    <stateVariable sendEvents=\"no\"><name>A_ARG_TYPE_ObjectID</name><dataType>string</dataType></stateVariable>\n    <stateVariable sendEvents=\"no\"><name>A_ARG_TYPE_BrowseFlag</name><dataType>string</dataType><allowedValueList><allowedValue>BrowseMetadata</allowedValue><allowedValue>BrowseDirectChildren</allowedValue></allowedValueList></stateVariable>\n    <stateVariable sendEvents=\"no\"><name>A_ARG_TYPE_Filter</name><dataType>string</dataType></stateVariable>\n    <stateVariable sendEvents=\"no\"><name>A_ARG_TYPE_Index</name><dataType>ui4</dataType></stateVariable>\n    <stateVariable sendEvents=\"no\"><name>A_ARG_TYPE_Count</name><dataType>ui4</dataType></stateVariable>\n    <stateVariable sendEvents=\"no\"><name>A_ARG_TYPE_SortCriteria</name><dataType>string</dataType></stateVariable>\n    <stateVariable sendEvents=\"no\"><name>A_ARG_TYPE_Result</name><dataType>string</dataType></stateVariable>\n    <stateVariable sendEvents=\"no\"><name>A_ARG_TYPE_UpdateID</name><dataType>ui4</dataType></stateVariable>\n    <stateVariable sendEvents=\"yes\"><name>SystemUpdateID</name><dataType>ui4</dataType></stateVariable>\n    <stateVariable sendEvents=\"no\"><name>SearchCapabilities</name><dataType>string</dataType></stateVariable>\n    <stateVariable sendEvents=\"no\"><name>SortCapabilities</name><dataType>string</dataType></stateVariable>\n  </serviceStateTable>\n</scpd>"@
}

/// Generate the service description of the ContentDirectory service.
pub fn generate_content_directory_scpd() -> (r: &'static str)
    ensures
        r@ == content_directory_scpd_xml(),
{
    "<?xml version=\"1.0\" encoding=\"utf-8\"?>\n<scpd xmlns=\"urn:schemas-upnp-org:service-1-0\">\n  <specVersion><major>1</major><minor>0</minor></specVersion>\n  <actionList>\n    <action>\n      <name>Browse</name>\n      <argumentList>\n        <argument><name>ObjectID</name><direction>in</direction><relatedStateVariable>A_ARG_TYPE_ObjectID</relatedStateVariable></argument>\n        <argument><name>BrowseFlag</name><direction>in</direction><relatedStateVariable>A_ARG_TYPE_BrowseFlag</relatedStateVariable></argument>\n        <argument><name>Filter</name><direction>in</direction><relatedStateVariable>A_ARG_TYPE_Filter</relatedStateVariable></argument>\n        <argument><name>StartingIndex</name><direction>in</direction><relatedStateVariable>A_ARG_TYPE_Index</relatedStateVariable></argument>\n        <argument><name>RequestedCount</name><direction>in</direction><relatedStateVariable>A_ARG_TYPE_Count</relatedStateVariable></argument>\n        <argument><name>SortCriteria</name><direction>in</direction><relatedStateVariable>A_ARG_TYPE_SortCriteria</relatedStateVariable></argument>\n        <argument><name>Result</name><direction>out</direction><relatedStateVariable>A_ARG_TYPE_Result</relatedStateVariable></argument>\n        <argument><name>NumberReturned</name><direction>out</direction><relatedStateVariable>A_ARG_TYPE_Count</relatedStateVariable></argument>\n        <argument><name>TotalMatches</name><direction>out</direction><relatedStateVariable>A_ARG_TYPE_Count</relatedStateVariable></argument>\n        <argument><name>UpdateID</name><direction>out</direction><relatedStateVariable>A_ARG_TYPE_UpdateID</relatedStateVariable></argument>\n      </argumentList>\n    </action>\n    <action>\n      <name>GetSystemUpdateID</name>\n      <argumentList>\n        <argument><name>Id</name><direction>out</direction><relatedStateVariable>SystemUpdateID</relatedStateVariable></argument>\n      </argumentList>\n    </action>\n    <action>\n      <name>GetSearchCapabilities</name>\n      <argumentList>\n        <argument><name>SearchCaps</name><direction>out</direction><relatedStateVariable>SearchCapabilities</relatedStateVariable></argument>\n      </argumentList>\n    </action>\n    <action>\n      <name>GetSortCapabilities</name>\n      <argumentList>\n        <argument><name>SortCaps</name><direction>out</direction><relatedStateVariable>SortCapabilities</relatedStateVariable></argument>\n      </argumentList>\n    </action>\n  </actionList>\n  <serviceStateTable>\n    <stateVariable sendEvents=\"no\"><name>A_ARG_TYPE_ObjectID</name><dataType>string</dataType></stateVariable>\n    <stateVariable sendEvents=\"no\"><name>A_ARG_TYPE_BrowseFlag</name><dataType>string</dataType><allowedValueList><allowedValue>BrowseMetadata</allowedValue><allowedValue>BrowseDirectChildren</allowedValue></allowedValueList></stateVariable>\n    <stateVariable sendEvents=\"no\"><name>A_ARG_TYPE_Filter</name><dataType>string</dataType></stateVariable>\n    <stateVariable sendEvents=\"no\"><name>A_ARG_TYPE_Index</name><dataType>ui4</dataType></stateVariable>\n    <stateVariable sendEvents=\"no\"><name>A_ARG_TYPE_Count</name><dataType>ui4</dataType></stateVariable>\n    <stateVariable sendEvents=\"no\"><name>A_ARG_TYPE_SortCriteria</name><dataType>string</dataType></stateVariable>\n    <stateVariable sendEvents=\"no\"><name>A_ARG_TYPE_Result</name><dataType>string</dataType></stateVariable>\n    <stateVariable sendEvents=\"no\"><name>A_ARG_TYPE_UpdateID</name><dataType>ui4</dataType></stateVariable>\n    <stateVariable sendEvents=\"yes\"><name>SystemUpdateID</name><dataType>ui4</dataType></stateVariable>\n    <stateVariable sendEvents=\"no\"><name>SearchCapabilities</name><dataType>string</dataType></stateVariable>\n    <stateVariable sendEvents=\"no\"><name>SortCapabilities</name><dataType>string</dataType></stateVariable>\n  </serviceStateTable>\n</scpd>"
}

/// The service description of the ConnectionManager service.
pub open spec fn connection_manager_scpd_xml() -> Seq<char> {
    "<?xml version=\"1.0\" encoding=\"utf-8\"?>\n<scpd xmlns=\"urn:schemas-upnp-org:service-1-0\">\n  <specVersion><major>1</major><minor>0</minor></specVersion>\n  <actionList>\n    <action>\n      <name>GetProtocolInfo</name>\n      <argumentList>\n        <argument><name>Source</name><direction>out</direction><relatedStateVariable>SourceProtocolInfo</relatedStateVariable></argument>\n        <argument><name>Sink</name><direction>out</direction><relatedStateVariable>SinkProtocolInfo</relatedStateVariable></argument>\n      </argumentList>\n    </action>\n    <action>\n      <name>GetCurrentConnectionIDs</name>\n      <argumentList>\n        <argument><name>ConnectionIDs</name><direction>out</direction><relatedStateVariable>CurrentConnectionIDs</relatedStateVariable></argument>\n      </argumentList>\n    </action>\n  </actionList>\n  <serviceStateTable>\n    <stateVariable sendEvents=\"yes\"><name>SourceProtocolInfo</name><dataType>string</dataType></stateVariable>\n    <stateVariable sendEvents=\"yes\"><name>SinkProtocolInfo</name><dataType>string</dataType></stateVariable>\n    <stateVariable sendEvents=\"yes\"><name>CurrentConnectionIDs</name><dataType>string</dataType></stateVariable>\n  </serviceStateTable>\n</scpd>"@
}

/// Generate the service description of the ConnectionManager service.
pub fn generate_connection_manager_scpd() -> (r: &'static str)
    ensures
        r@ == connection_manager_scpd_xml(),
{
    "<?xml version=\"1.0\" encoding=\"utf-8\"?>\n<scpd xmlns=\"urn:schemas-upnp-org:service-1-0\">\n  <specVersion><major>1</major><minor>0</minor></specVersion>\n  <actionList>\n    <action>\n      <name>GetProtocolInfo</name>\n      <argumentList>\n        <argument><name>Source</name><direction>out</direction><relatedStateVariable>SourceProtocolInfo</relatedStateVariable></argument>\n        <argument><name>Sink</name><direction>out</direction><relatedStateVariable>SinkProtocolInfo</relatedStateVariable></argument>\n      </argumentList>\n    </action>\n    <action>\n      <name>GetCurrentConnectionIDs</name>\n      <argumentList>\n        <argument><name>ConnectionIDs</name><direction>out</direction><relatedStateVariable>CurrentConnectionIDs</relatedStateVariable></argument>\n      </argumentList>\n    </action>\n  </actionList>\n  <serviceStateTable>\n    <stateVariable sendEvents=\"yes\"><name>SourceProtocolInfo</name><dataType>string</dataType></stateVariable>\n    <stateVariable sendEvents=\"yes\"><name>SinkProtocolInfo</name><dataType>string</dataType></stateVariable>\n    <stateVariable sendEvents=\"yes\"><name>CurrentConnectionIDs</name><dataType>string</dataType></stateVariable>\n  </serviceStateTable>\n</scpd>"
}
} // verus!
