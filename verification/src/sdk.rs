//! Host-side tag types: how an entity update is classified, and the marker
//! types naming the host interfaces a binding layer resolves handles for.

use vstd::prelude::*;

verus! {

/// Why the host is updating an entity's networked data.
#[derive(Clone, Copy, Debug, PartialEq, Eq, Structural)]
pub enum DataUpdateKind {
    /// The entity was just created.
    Created,
    /// An existing entity changed.
    Changed,
}

/// Marker for the host's debug overlay interface.
#[derive(Debug)]
pub struct Debug;

/// Marker for the host's screen-effects interface.
#[derive(Debug)]
pub struct Effects;

/// Marker for the host's game-events interface.
#[derive(Debug)]
pub struct Events;

/// Marker for the host's filesystem interface.
#[derive(Debug)]
pub struct Filesystem;

/// Marker for the host's internal-input interface.
#[derive(Debug)]
pub struct InputInternal;

/// Marker for the host's string-table interface.
#[derive(Debug)]
pub struct Kinds;

/// Marker for the host's localization interface.
#[derive(Debug)]
pub struct Localize;

/// Marker for the host's game-movement interface.
#[derive(Debug)]
pub struct Movement;

/// Marker for the host's panel interface.
#[derive(Debug)]
pub struct Panel;

/// Marker for the host's panorama UI interface.
#[derive(Debug)]
pub struct Panorama;

/// Marker for the host's physics-properties interface.
#[derive(Debug)]
pub struct Physics;

/// Marker for the host's client-prediction interface.
#[derive(Debug)]
pub struct Prediction;

/// Marker for the host's sound interface.
#[derive(Debug)]
pub struct Sound;

/// Marker for the host's VGUI interface.
#[derive(Debug)]
pub struct VGui;

} // verus!
