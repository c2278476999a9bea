//! The bridge to the engine's subsystem interfaces: which subsystems the shim
//! supplies itself, which it leaves to the engine, and which nobody supplies
//! yet.

use crate::error::ShimError;
use vstd::prelude::*;

verus! {

/// The subsystems that the engine asks its host for at startup.
#[derive(Clone, Copy, Debug, PartialEq, Eq, Structural)]
pub enum Subsystem {
    LocalFileSystem,
    ArchiveFileSystem,
    GameLogic,
    GameClient,
    ModuleFactory,
    ThingFactory,
    FunctionLexicon,
    Radar,
    ParticleSystemManager,
    AudioManager,
}

/// Where the instance of a subsystem comes from.
#[derive(Clone, Copy, Debug, PartialEq, Eq, Structural)]
pub enum Supplier {
    /// The shim's own implementation of the interface.
    Override,
    /// The engine's own implementation, to which the call is forwarded.
    Native,
}

/// The engine interface of the shim.
pub struct GeneralsGameEngine {}

impl GeneralsGameEngine {
    /// Who supplies each subsystem. A subsystem that nobody supplies is
    /// `Unimplemented`.
    pub open spec fn spec_supplier(subsystem: Subsystem) -> Result<Supplier, ShimError> {
        match subsystem {
            Subsystem::LocalFileSystem => Ok(Supplier::Override),
            Subsystem::ArchiveFileSystem => Ok(Supplier::Native),
            Subsystem::GameLogic => Ok(Supplier::Native),
            Subsystem::GameClient => Err(ShimError::Unimplemented),
            Subsystem::ModuleFactory => Ok(Supplier::Native),
            Subsystem::ThingFactory => Err(ShimError::Unimplemented),
            Subsystem::FunctionLexicon => Ok(Supplier::Native),
            Subsystem::Radar => Err(ShimError::Unimplemented),
            Subsystem::ParticleSystemManager => Ok(Supplier::Native),
            Subsystem::AudioManager => Ok(Supplier::Native),
        }
    }

    /// Who supplies the instance that the factory of `subsystem` returns.
    pub fn supplier(subsystem: Subsystem) -> (supplier: Result<Supplier, ShimError>)
        ensures
            supplier == Self::spec_supplier(subsystem),
    {
        match subsystem {
            Subsystem::LocalFileSystem => Ok(Supplier::Override),
            Subsystem::ArchiveFileSystem => Ok(Supplier::Native),
            Subsystem::GameLogic => Ok(Supplier::Native),
            Subsystem::GameClient => Err(ShimError::Unimplemented),
            Subsystem::ModuleFactory => Ok(Supplier::Native),
            Subsystem::ThingFactory => Err(ShimError::Unimplemented),
            Subsystem::FunctionLexicon => Ok(Supplier::Native),
            Subsystem::Radar => Err(ShimError::Unimplemented),
            Subsystem::ParticleSystemManager => Ok(Supplier::Native),
            Subsystem::AudioManager => Ok(Supplier::Native),
        }
    }
}

/// The shim's radar. It can be set up, updated and reset; everything that
/// would draw is not written yet.
pub struct GeneralsRadar {}

impl GeneralsRadar {
    /// Draws the radar into a rectangle of the screen. Always
    /// `Unimplemented`.
    pub fn draw(&mut self, pixel_x: i32, pixel_y: i32, width: i32, height: i32) -> (drawn: Result<
        (),
        ShimError,
    >)
        ensures
            drawn == Err::<(), ShimError>(ShimError::Unimplemented),
    {
        Err(ShimError::Unimplemented)
    }

    /// Clears the shroud from the radar. Always `Unimplemented`.
    pub fn clear_shroud(&mut self) -> (cleared: Result<(), ShimError>)
        ensures
            cleared == Err::<(), ShimError>(ShimError::Unimplemented),
    {
        Err(ShimError::Unimplemented)
    }

    /// Sets the shroud of one cell of the radar. Always `Unimplemented`.
    pub fn set_shroud_level(&mut self, x: i32, y: i32, setting: i32) -> (set: Result<
        (),
        ShimError,
    >)
        ensures
            set == Err::<(), ShimError>(ShimError::Unimplemented),
    {
        Err(ShimError::Unimplemented)
    }
}

} // verus!
