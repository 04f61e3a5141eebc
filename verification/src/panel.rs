//! The debug control panel: what it shows, and what an edit does to the
//! configuration.

use vstd::prelude::*;
use crate::assets::AssetState;
use crate::config::{Config, ConfigValues};

verus! {

/// What the panel is to do after its value widgets have been drawn.
#[derive(Clone, Copy, Debug, PartialEq, Eq)]
pub struct PanelUpdate {
    /// The values changed: everything that reads them is to be told.
    pub values_changed: bool,
    /// Whether the save button can be pressed.
    pub save_enabled: bool,
    /// What the save button says.
    pub save_label: &'static str,
}

/// The line that tells the user how loading stands.
pub open spec fn status_text(state: AssetState) -> Seq<char> {
    match state {
        AssetState::Loading => "loading assets for vital functions"@,
        AssetState::Loaded => "press arrow keys to move the boat"@,
        AssetState::Failed => {
            "assets failed to load for some reason, check console for detailed errors"@
        },
    }
}

/// What the save button says: that the configuration is saved, or that it
/// can be.
pub open spec fn save_text(saved: bool) -> Seq<char> {
    if saved {
        "config saved"@
    } else {
        "save config"@
    }
}

/// The line that tells the user how loading stands.
pub fn status_label(state: AssetState) -> (label: &'static str)
    ensures
        label@ == status_text(state),
{
    match state {
        AssetState::Loading => "loading assets for vital functions",
        AssetState::Loaded => "press arrow keys to move the boat",
        AssetState::Failed => {
            "assets failed to load for some reason, check console for detailed errors"
        },
    }
}

/// Takes the values as the panel's widgets left them. `changed` tells whether
/// any widget reported an edit: only then are the values taken over, and the
/// configuration becomes unsaved; only a successful save makes it saved
/// again. Without an edit the configuration stays as it is, whatever `values`
/// holds. The save button can be pressed while the configuration is unsaved.
pub fn update_ui(config: &mut Config, values: ConfigValues, changed: bool) -> (update: PanelUpdate)
    ensures
        final(config).values == if changed {
            values
        } else {
            old(config).values
        },
        final(config).saved == (old(config).saved && !changed),
        update.values_changed == changed,
        update.save_enabled == !final(config).saved,
        update.save_label@ == save_text(final(config).saved),
{
    if changed {
        config.values = values;
        config.saved = false;
    }
    PanelUpdate {
        values_changed: changed,
        save_enabled: !config.saved,
        save_label: if config.saved {
            "config saved"
        } else {
            "save config"
        },
    }
}

} // verus!
