use mass_flow::config::{resolution_dimensions, ConfigError, Configuration, HostFacts};
use mass_flow::schedule::{plan_run, FlowPolicy};

fn valid_config() -> Configuration {
    Configuration {
        mass_distr_file_path: "assets/mass.png".to_string(),
        output_directory_path: "frames".to_string(),
        frames_number: 10,
        simulation_factor: 4,
        target_resolution: 720,
        dynamize_flow_field: false,
        randomize_flow_field: false,
    }
}

fn all_present() -> HostFacts {
    HostFacts {
        mass_distr_file_exists: true,
        output_directory_exists: true,
        flow_field_scale_at_least_one: true,
    }
}

#[test]
fn resolution_table() {
    assert_eq!(resolution_dimensions(480), Some((640, 460)));
    assert_eq!(resolution_dimensions(720), Some((1280, 720)));
    assert_eq!(resolution_dimensions(1080), Some((1920, 1080)));
    assert_eq!(resolution_dimensions(1440), Some((2560, 1440)));
    assert_eq!(resolution_dimensions(2160), Some((3840, 2160)));
    assert_eq!(resolution_dimensions(999), None);
    assert_eq!(resolution_dimensions(0), None);
}

#[test]
fn valid_configuration_passes() {
    assert_eq!(valid_config().check(&all_present()), Ok(()));
}

#[test]
fn empty_mass_path_rejected() {
    let mut c = valid_config();
    c.mass_distr_file_path = String::new();
    assert_eq!(c.check(&all_present()), Err(ConfigError::EmptyMassDistrPath));
}

#[test]
fn missing_mass_file_rejected() {
    let mut facts = all_present();
    facts.mass_distr_file_exists = false;
    assert_eq!(valid_config().check(&facts), Err(ConfigError::MassDistrFileMissing));
}

#[test]
fn empty_output_path_rejected() {
    let mut c = valid_config();
    c.output_directory_path = String::new();
    assert_eq!(c.check(&all_present()), Err(ConfigError::EmptyOutputDirectoryPath));
}

#[test]
fn missing_output_directory_rejected() {
    let mut facts = all_present();
    facts.output_directory_exists = false;
    assert_eq!(valid_config().check(&facts), Err(ConfigError::OutputDirectoryMissing));
}

#[test]
fn zero_frames_rejected() {
    let mut c = valid_config();
    c.frames_number = 0;
    assert_eq!(c.check(&all_present()), Err(ConfigError::ZeroFramesNumber));
}

#[test]
fn zero_simulation_factor_rejected() {
    let mut c = valid_config();
    c.simulation_factor = 0;
    assert_eq!(c.check(&all_present()), Err(ConfigError::ZeroSimulationFactor));
    assert!(plan_run(&c, &all_present()).is_err());
}

#[test]
fn small_flow_scale_rejected() {
    let mut facts = all_present();
    facts.flow_field_scale_at_least_one = false;
    assert_eq!(valid_config().check(&facts), Err(ConfigError::FlowFieldScaleBelowOne));
}

#[test]
fn unsupported_resolution_rejected() {
    let mut c = valid_config();
    c.target_resolution = 999;
    assert_eq!(c.check(&all_present()), Err(ConfigError::UnsupportedResolution));
    assert!(plan_run(&c, &all_present()).is_err());
}

#[test]
fn first_broken_rule_is_reported() {
    let mut c = valid_config();
    c.simulation_factor = 0;
    c.target_resolution = 999;
    c.output_directory_path = String::new();
    assert_eq!(c.check(&all_present()), Err(ConfigError::EmptyOutputDirectoryPath));
}

#[test]
fn plan_from_valid_configuration() {
    let mut c = valid_config();
    c.target_resolution = 480;
    c.dynamize_flow_field = true;
    c.randomize_flow_field = true;
    let plan = plan_run(&c, &all_present()).unwrap();
    assert_eq!(plan.shape.width, 640);
    assert_eq!(plan.shape.height, 460);
    assert_eq!(plan.frames, 10);
    assert_eq!(plan.sub_steps, 4);
    assert_eq!(plan.policy, FlowPolicy::Dynamic);
    assert!(plan.randomize_offsets);
}
