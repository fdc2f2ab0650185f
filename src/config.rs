use vstd::prelude::*;
use vstd::string::StrSliceExecFns;

verus! {

/// The target resolutions a run may ask for, by their vertical line count.
pub open spec fn supported_resolution(target: usize) -> bool {
    target == 480 || target == 720 || target == 1080 || target == 1440 || target == 2160
}

/// The grid dimensions `(width, height)` of a supported target resolution.
pub open spec fn dimensions_of(target: usize) -> (usize, usize) {
    if target == 480 {
        (640, 460)
    } else if target == 720 {
        (1280, 720)
    } else if target == 1080 {
        (1920, 1080)
    } else if target == 1440 {
        (2560, 1440)
    } else {
        (3840, 2160)
    }
}

/// The grid dimensions of a target resolution; `None` for an unsupported one.
pub fn resolution_dimensions(target: usize) -> (r: Option<(usize, usize)>)
    ensures
        r is Some <==> supported_resolution(target),
        r matches Some(d) ==> d == dimensions_of(target),
{
    match target {
        480 => Some((640, 460)),
        720 => Some((1280, 720)),
        1080 => Some((1920, 1080)),
        1440 => Some((2560, 1440)),
        2160 => Some((3840, 2160)),
        _ => None,
    }
}

/// The parameters of a run. The flow field's scale divisor is a float and
/// is held by the host; only whether it is at least 1 reaches the library,
/// through [`HostFacts`].
pub struct Configuration {
    pub mass_distr_file_path: String,
    pub output_directory_path: String,
    pub frames_number: usize,
    pub simulation_factor: usize,
    pub target_resolution: usize,
    pub dynamize_flow_field: bool,
    pub randomize_flow_field: bool,
}

/// What only the host can observe about a configuration: the file system
/// and the float scale divisor.
pub struct HostFacts {
    pub mass_distr_file_exists: bool,
    pub output_directory_exists: bool,
    pub flow_field_scale_at_least_one: bool,
}

/// Why a configuration was rejected.
#[derive(PartialEq, Eq, Structural, Debug, Clone, Copy)]
pub enum ConfigError {
    EmptyMassDistrPath,
    MassDistrFileMissing,
    EmptyOutputDirectoryPath,
    OutputDirectoryMissing,
    ZeroFramesNumber,
    ZeroSimulationFactor,
    FlowFieldScaleBelowOne,
    UnsupportedResolution,
}

impl Configuration {
    /// The first rule that a configuration breaks, checked in a fixed order;
    /// `None` when it breaks none.
    pub open spec fn first_violation(&self, facts: HostFacts) -> Option<ConfigError> {
        if self.mass_distr_file_path@.len() == 0 {
            Some(ConfigError::EmptyMassDistrPath)
        } else if !facts.mass_distr_file_exists {
            Some(ConfigError::MassDistrFileMissing)
        } else if self.output_directory_path@.len() == 0 {
            Some(ConfigError::EmptyOutputDirectoryPath)
        } else if !facts.output_directory_exists {
            Some(ConfigError::OutputDirectoryMissing)
        } else if self.frames_number == 0 {
            Some(ConfigError::ZeroFramesNumber)
        } else if self.simulation_factor == 0 {
            Some(ConfigError::ZeroSimulationFactor)
        } else if !facts.flow_field_scale_at_least_one {
            Some(ConfigError::FlowFieldScaleBelowOne)
        } else if !supported_resolution(self.target_resolution) {
            Some(ConfigError::UnsupportedResolution)
        } else {
            None
        }
    }

    /// Accepts the configuration, or reports the first rule it breaks.
    pub fn check(&self, facts: &HostFacts) -> (r: Result<(), ConfigError>)
        ensures
            r is Ok <==> self.first_violation(*facts) is None,
            r matches Err(e) ==> self.first_violation(*facts) == Some(e),
    {
        if self.mass_distr_file_path.as_str().unicode_len() == 0 {
            return Err(ConfigError::EmptyMassDistrPath);
        }
        if !facts.mass_distr_file_exists {
            return Err(ConfigError::MassDistrFileMissing);
        }
        if self.output_directory_path.as_str().unicode_len() == 0 {
            return Err(ConfigError::EmptyOutputDirectoryPath);
        }
        if !facts.output_directory_exists {
            return Err(ConfigError::OutputDirectoryMissing);
        }
        if self.frames_number == 0 {
            return Err(ConfigError::ZeroFramesNumber);
        }
        if self.simulation_factor == 0 {
            return Err(ConfigError::ZeroSimulationFactor);
        }
        if !facts.flow_field_scale_at_least_one {
            return Err(ConfigError::FlowFieldScaleBelowOne);
        }
        match resolution_dimensions(self.target_resolution) {
            Some(_) => Ok(()),
            None => Err(ConfigError::UnsupportedResolution),
        }
    }
}

} // verus!
