//! Syntax elements of a raw data block.

use vstd::prelude::*;

verus! {

/// Element of a raw data block.
#[derive(Clone, Copy, Debug, PartialEq, Eq, Structural)]
pub enum ChannelElementId {
    /// No element.
    NoElement,
    /// Single channel element.
    Sce,
    /// Channel pair element.
    Cpe,
    /// Coupling channel element.
    Cce,
    /// Low frequency effects channel element.
    Lfe,
    /// Data stream element.
    Dse,
    /// Program config element.
    Pce,
    /// Fill element.
    Fil,
    /// End of the raw data block.
    End,
    /// Extension payload of the error resilient syntax.
    Ext,
}

impl ChannelElementId {
    /// Whether the element carries audio channels.
    pub open spec fn spec_is_channel_element(self) -> bool {
        self == ChannelElementId::Sce || self == ChannelElementId::Cpe || self
            == ChannelElementId::Lfe
    }

    /// Whether the element carries audio channels.
    pub fn is_channel_element(&self) -> (r: bool)
        ensures
            r == self.spec_is_channel_element(),
    {
        match self {
            ChannelElementId::Sce | ChannelElementId::Cpe | ChannelElementId::Lfe => true,
            _ => false,
        }
    }
}

impl Default for ChannelElementId {
    fn default() -> (id: ChannelElementId)
        ensures
            id == ChannelElementId::NoElement,
    {
        ChannelElementId::NoElement
    }
}

} // verus!
