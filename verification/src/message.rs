//! The tagged-union message formats of the bridge.
//!
//! [`GuiMessage`] travels from the GUI to the plugin, [`PluginMessage`] from
//! the plugin to the GUI.  The `Message` variants carry an
//! application-defined payload that the bridge never interprets: it is held
//! as a structured value and handed through unchanged.

use vstd::prelude::*;
use crate::wire::Number;
use crate::wire::ValueModel;
use crate::wire::WireValue;

verus! {

/// A parameter change, carrying the parameter's identifier and its
/// normalized value.
#[derive(Debug, PartialEq, Eq)]
pub struct ParamChange {
    /// The parameter's identifier: non-empty and unique among the registered
    /// parameters.
    pub id: String,
    /// The parameter's normalized value, in `[0, 1]` after clamping.
    pub value: Number,
}

/// The mathematical shape of a [`ParamChange`].
#[verifier::ext_equal]
pub struct ParamChangeModel {
    pub id: Seq<char>,
    pub value: Number,
}

impl View for ParamChange {
    type V = ParamChangeModel;

    open spec fn view(&self) -> ParamChangeModel {
        ParamChangeModel { id: self.id@, value: self.value }
    }
}

impl DeepView for ParamChange {
    type V = ParamChangeModel;

    open spec fn deep_view(&self) -> ParamChangeModel {
        self.view()
    }
}

/// A message from the GUI to the plugin.
#[derive(Debug, PartialEq, Eq)]
pub enum GuiMessage {
    /// A request to change one parameter.
    ParamChange(ParamChange),
    /// The GUI's request for the initial state hand-off: the plugin answers
    /// with one outbound [`PluginMessage::ParamChange`] per parameter.
    Init,
    /// An application-defined payload for the custom message handler.
    Message(WireValue),
}

/// The mathematical shape of a [`GuiMessage`].
#[verifier::ext_equal]
pub enum GuiMessageModel {
    ParamChange(ParamChangeModel),
    Init,
    Message(ValueModel),
}

impl View for GuiMessage {
    type V = GuiMessageModel;

    open spec fn view(&self) -> GuiMessageModel {
        match self {
            GuiMessage::ParamChange(pc) => GuiMessageModel::ParamChange(pc@),
            GuiMessage::Init => GuiMessageModel::Init,
            GuiMessage::Message(p) => GuiMessageModel::Message(p@),
        }
    }
}

impl DeepView for GuiMessage {
    type V = GuiMessageModel;

    open spec fn deep_view(&self) -> GuiMessageModel {
        self.view()
    }
}

/// A message from the plugin to the GUI.
#[derive(Debug, PartialEq, Eq)]
pub enum PluginMessage {
    /// A parameter's current normalized value.
    ParamChange(ParamChange),
    /// An application-defined payload for the GUI.
    Message(WireValue),
}

/// The mathematical shape of a [`PluginMessage`].
#[verifier::ext_equal]
pub enum PluginMessageModel {
    ParamChange(ParamChangeModel),
    Message(ValueModel),
}

impl View for PluginMessage {
    type V = PluginMessageModel;

    open spec fn view(&self) -> PluginMessageModel {
        match self {
            PluginMessage::ParamChange(pc) => PluginMessageModel::ParamChange(pc@),
            PluginMessage::Message(p) => PluginMessageModel::Message(p@),
        }
    }
}

impl DeepView for PluginMessage {
    type V = PluginMessageModel;

    open spec fn deep_view(&self) -> PluginMessageModel {
        self.view()
    }
}

} // verus!
