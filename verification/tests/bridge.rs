use generals_shim::bridge::{GeneralsGameEngine, GeneralsRadar, Subsystem, Supplier};
use generals_shim::error::{Disposition, ShimError};

#[test]
fn local_file_system_is_the_shims_own() {
    assert_eq!(GeneralsGameEngine::supplier(Subsystem::LocalFileSystem), Ok(Supplier::Override));
}

#[test]
fn forwarded_subsystems_come_from_the_engine() {
    assert_eq!(GeneralsGameEngine::supplier(Subsystem::ArchiveFileSystem), Ok(Supplier::Native));
    assert_eq!(GeneralsGameEngine::supplier(Subsystem::GameLogic), Ok(Supplier::Native));
    assert_eq!(GeneralsGameEngine::supplier(Subsystem::ModuleFactory), Ok(Supplier::Native));
    assert_eq!(GeneralsGameEngine::supplier(Subsystem::FunctionLexicon), Ok(Supplier::Native));
    assert_eq!(GeneralsGameEngine::supplier(Subsystem::ParticleSystemManager), Ok(Supplier::Native));
    assert_eq!(GeneralsGameEngine::supplier(Subsystem::AudioManager), Ok(Supplier::Native));
}

#[test]
fn subsystems_that_nobody_supplies_are_unimplemented() {
    assert_eq!(GeneralsGameEngine::supplier(Subsystem::GameClient), Err(ShimError::Unimplemented));
    assert_eq!(GeneralsGameEngine::supplier(Subsystem::ThingFactory), Err(ShimError::Unimplemented));
    assert_eq!(GeneralsGameEngine::supplier(Subsystem::Radar), Err(ShimError::Unimplemented));
}

#[test]
fn radar_drawing_is_unimplemented() {
    let mut radar = GeneralsRadar {};
    assert_eq!(radar.draw(0, 0, 100, 100), Err(ShimError::Unimplemented));
    assert_eq!(radar.clear_shroud(), Err(ShimError::Unimplemented));
    assert_eq!(radar.set_shroud_level(3, 4, 1), Err(ShimError::Unimplemented));
    assert_eq!(ShimError::Unimplemented.disposition(), Disposition::Abort);
}
