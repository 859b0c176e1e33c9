//! The command-line arguments of the desktop build, and what they change.
use vstd::prelude::*;
use crate::actors::blive::{mode_spec, LiveMode};
use crate::config::Config;

verus! {

/// The command-line arguments: each one that is given overrides the configuration.
pub struct Args {
    /// The configuration file.
    pub config: Option<String>,
    /// The cookie string.
    pub cookie: Option<String>,
    /// The live room id.
    pub room_id: Option<u64>,
    /// The live title.
    pub title: Option<String>,
    /// The live area id.
    pub area: Option<String>,
    /// The mode: `auto` or `manual`.
    pub mode: Option<String>,
}

/// The mode that an argument names; an unknown name overrides nothing.
pub open spec fn mode_arg_spec(mode: Option<String>) -> Option<LiveMode> {
    match mode {
        Some(s) => mode_spec(s@),
        None => None,
    }
}

impl Args {
    /// Applies the overrides that the arguments give to `config`.
    pub fn apply_to(self, config: &mut Config)
        ensures
            final(config).live.room_id == (match self.room_id {
                Some(id) => id,
                None => old(config).live.room_id,
            }),
            final(config).live.title == (match self.title {
                Some(t) => t,
                None => old(config).live.title,
            }),
            final(config).live.area_v2 == (match self.area {
                Some(a) => a,
                None => old(config).live.area_v2,
            }),
            final(config).live.live_mode == (match mode_arg_spec(self.mode) {
                Some(m) => m,
                None => old(config).live.live_mode,
            }),
            final(config).auth == old(config).auth,
            final(config).dns_proxy == old(config).dns_proxy,
            final(config).dns_redirect == old(config).dns_redirect,
    {
        let mode = match &self.mode {
            Some(s) => match LiveMode::from_str(s.as_str()) {
                Ok(m) => Some(m),
                Err(_) => None,
            },
            None => None,
        };
        config.apply_cli_overrides(self.room_id, self.title, self.area, mode);
    }
}

} // verus!
