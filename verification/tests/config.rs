use veritas_core::app_state::{Unit, UpdateState};
use veritas_core::config::{Config, VeritasVersion};

#[test]
fn fresh_settings_choose_nothing() {
    let c = Config::default();
    assert!(c.game_path.is_none());
    assert!(c.dll_version.is_none());
    assert!(c.version_type.is_none());
}

#[test]
fn the_default_release_line_is_the_global_beta() {
    assert_eq!(VeritasVersion::default(), VeritasVersion::GlobalBeta);
    assert_ne!(VeritasVersion::CnBeta, VeritasVersion::GlobalProd);
}

#[test]
fn presentation_state_types_compare_by_value() {
    assert_eq!(Unit::Turn, Unit::Turn);
    assert_ne!(Unit::Turn, Unit::ActionValue);
    assert_eq!(UpdateState { downloaded: false }, UpdateState { downloaded: false });
}
