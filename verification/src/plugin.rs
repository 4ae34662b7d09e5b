//! Plugin descriptions, as returned by the plugin-list request (protocol
//! version 4).  Read-only: plugin data is never written by a client.

use vstd::prelude::*;

use crate::codec::DeserFromBuf;
use crate::error::OpenRgbError;
use crate::message::ReceivedMessage;

verus! {

broadcast use vstd::seq_lib::lemma_seq_skip_of_skip;

/// One plugin installed on the server.
#[derive(Debug, Clone, PartialEq, Eq)]
pub struct PluginData {
    /// Plugin name.
    pub name: String,
    /// Plugin description.
    pub description: String,
    /// Plugin version string.
    pub version: String,
    /// Index of this plugin: its id in plugin-specific commands.
    pub index: u32,
    /// The plugin's own protocol version.
    pub plugin_protocol_version: u32,
}

/// Abstract value of a [`PluginData`].
pub struct PluginDataV {
    /// Plugin name.
    pub name: Seq<char>,
    /// Plugin description.
    pub description: Seq<char>,
    /// Plugin version string.
    pub version: Seq<char>,
    /// Index of this plugin: its id in plugin-specific commands.
    pub index: u32,
    /// The plugin's own protocol version.
    pub plugin_protocol_version: u32,
}

impl DeepView for PluginData {
    type V = PluginDataV;

    open spec fn deep_view(&self) -> PluginDataV {
        PluginDataV {
            name: self.name.deep_view(),
            description: self.description.deep_view(),
            version: self.version.deep_view(),
            index: self.index,
            plugin_protocol_version: self.plugin_protocol_version,
        }
    }
}

impl DeserFromBuf for PluginData {
    /// Name, description, version, index, plugin protocol version, in order.
    open spec fn dec(bytes: Seq<u8>, ver: u32) -> Option<(PluginDataV, int)> {
        match <String as DeserFromBuf>::dec(bytes, ver) {
            Option::None => None,
            Option::Some((name, n1)) => match <String as DeserFromBuf>::dec(bytes.skip(n1), ver) {
                Option::None => None,
                Option::Some((description, n2)) => match <String as DeserFromBuf>::dec(
                    bytes.skip(n1 + n2),
                    ver,
                ) {
                    Option::None => None,
                    Option::Some((version, n3)) => match <u32 as DeserFromBuf>::dec(
                        bytes.skip(n1 + n2 + n3),
                        ver,
                    ) {
                        Option::None => None,
                        Option::Some((index, n4)) => match <u32 as DeserFromBuf>::dec(
                            bytes.skip(n1 + n2 + n3 + n4),
                            ver,
                        ) {
                            Option::None => None,
                            Option::Some((plugin_protocol_version, n5)) => Some(
                                (
                                    PluginDataV {
                                        name,
                                        description,
                                        version,
                                        index,
                                        plugin_protocol_version,
                                    },
                                    n1 + n2 + n3 + n4 + n5,
                                ),
                            ),
                        },
                    },
                },
            },
        }
    }

    fn deserialize(buf: &mut ReceivedMessage<'_>) -> (r: Result<Self, OpenRgbError>) {
        let name: String = buf.read_value()?;
        let description: String = buf.read_value()?;
        let version: String = buf.read_value()?;
        let index: u32 = buf.read_value()?;
        let plugin_protocol_version: u32 = buf.read_value()?;
        Ok(PluginData { name, description, version, index, plugin_protocol_version })
    }
}

} // verus!
