//! DRM connectors (outputs).

use vstd::prelude::*;

use crate::drm::mode::{spec_fhd_60, spec_hd_60, DisplayMode};

verus! {

#[derive(Clone, Copy, Debug, PartialEq, Eq, Structural)]
pub enum ConnectorType {
    Unknown,
    Vga,
    Dvi,
    Hdmi,
    DisplayPort,
    Edp,
    Lvds,
    Virtual,
}

#[derive(Clone, Copy, Debug, PartialEq, Eq, Structural)]
pub enum ConnectorStatus {
    Disconnected,
    Connected,
    Unknown,
}

#[derive(Clone, Debug)]
pub struct Connector {
    pub id: u32,
    pub connector_type: ConnectorType,
    pub status: ConnectorStatus,
    pub modes: Vec<DisplayMode>,
    pub encoder_id: u32,
    pub crtc_id: Option<u32>,
    /// Property blob id of the attached EDID, if any.
    pub edid_blob_id: Option<u32>,
}

impl Connector {
    /// A connected virtual output offering 1080p60 then 720p60, on the encoder
    /// of the same id, unbound.
    pub fn virtual_fhd(id: u32) -> (c: Self)
        ensures
            c.id == id,
            c.connector_type == ConnectorType::Virtual,
            c.status == ConnectorStatus::Connected,
            c.modes@ == seq![spec_fhd_60(), spec_hd_60()],
            c.encoder_id == id,
            c.crtc_id is None,
            c.edid_blob_id is None,
    {
        let mut modes: Vec<DisplayMode> = Vec::new();
        modes.push(DisplayMode::fhd_60());
        modes.push(DisplayMode::hd_60());
        assert(modes@ =~= seq![spec_fhd_60(), spec_hd_60()]);
        Connector {
            id,
            connector_type: ConnectorType::Virtual,
            status: ConnectorStatus::Connected,
            modes,
            encoder_id: id,
            crtc_id: None,
            edid_blob_id: None,
        }
    }

    /// The first listed mode.
    pub fn preferred_mode(&self) -> (m: Option<DisplayMode>)
        ensures
            m == if self.modes@.len() > 0 {
                Some(self.modes@[0])
            } else {
                None::<DisplayMode>
            },
    {
        if self.modes.len() > 0 {
            Some(self.modes[0])
        } else {
            None
        }
    }
}

} // verus!
