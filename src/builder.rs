//! Negotiation of the instance creation request.
use vstd::prelude::*;

use crate::error::{BootstrapError, DriverError};
use crate::names::{
    contains_name, debug_utils_extension_name, debug_utils_name, khronos_validation_layer,
    khronos_validation_name, views,
};

verus! {

/// The number that Vulkan packs a version into.
pub open spec fn version_number(major: u32, minor: u32, patch: u32) -> int {
    major * 4194304 + minor * 4096 + patch
}

/// Relies on `vulkanalia::vk::make_version`: `(major << 22) | (minor << 12) | patch`,
/// which is this sum while each part fits its field.
#[verifier::external_body]
fn make_version(major: u32, minor: u32, patch: u32) -> (r: u32)
    requires
        major < 1024,
        minor < 1024,
        patch < 4096,
    ensures
        r == version_number(major, minor, patch),
{
    vulkanalia::vk::make_version(major, minor, patch)
}

/// What the bootstrap is configured to do.
#[derive(Clone, Debug)]
pub struct BootstrapConfig {
    /// Ask for the validation layer and install the debug channel.
    pub diagnostics_enabled: bool,
    /// The layer that diagnostics need.
    pub validation_layer: Vec<u8>,
    pub application_name: String,
    pub engine_name: String,
    pub application_version: u32,
    pub api_version: u32,
}

impl BootstrapConfig {
    /// The renderer's own settings, with diagnostics as given.
    pub fn new(diagnostics_enabled: bool) -> (r: Self)
        ensures
            r.diagnostics_enabled == diagnostics_enabled,
            r.validation_layer@ == khronos_validation_name(),
            r.application_name@ == "Cool Renderer"@,
            r.engine_name@ == "No Engine"@,
            r.application_version == version_number(1, 0, 0),
            r.api_version == version_number(1, 0, 0),
    {
        BootstrapConfig {
            diagnostics_enabled,
            validation_layer: khronos_validation_layer(),
            application_name: "Cool Renderer".to_owned(),
            engine_name: "No Engine".to_owned(),
            application_version: make_version(1, 0, 0),
            api_version: make_version(1, 0, 0),
        }
    }
}

/// Everything the single creation call is handed; creation flags are always empty.
#[derive(Clone, Debug)]
pub struct CreationRequest {
    pub application_name: String,
    pub engine_name: String,
    pub application_version: u32,
    pub api_version: u32,
    pub layers: Vec<Vec<u8>>,
    pub extensions: Vec<Vec<u8>>,
}

/// The layers to request: the validation layer when diagnostics are on, else none.
pub open spec fn layer_names(c: BootstrapConfig) -> Seq<Seq<u8>> {
    if c.diagnostics_enabled {
        seq![c.validation_layer@]
    } else {
        seq![]
    }
}

/// The extensions to request: those the window needs, then the debug
/// extension when diagnostics are on.
pub open spec fn extension_names(c: BootstrapConfig, window: Seq<Seq<u8>>) -> Seq<Seq<u8>> {
    if c.diagnostics_enabled {
        window.push(debug_utils_name())
    } else {
        window
    }
}

/// Whether the layer listing lets the bootstrap go on: always when
/// diagnostics are off, else only when the listing holds the validation layer.
pub open spec fn catalog_verdict(
    c: BootstrapConfig,
    discovered: Result<Vec<Vec<u8>>, DriverError>,
) -> Result<(), BootstrapError> {
    if !c.diagnostics_enabled {
        Ok(())
    } else {
        match discovered {
            Err(e) => Err(BootstrapError::LayerQueryFailed(e)),
            Ok(layers) => if views(layers@).contains(c.validation_layer@) {
                Ok(())
            } else {
                Err(BootstrapError::MissingValidationLayer)
            },
        }
    }
}

/// The request built from a configuration and the window's extensions.
pub open spec fn request_matches(
    r: CreationRequest,
    c: BootstrapConfig,
    window: Seq<Seq<u8>>,
) -> bool {
    &&& r.application_name@ == c.application_name@
    &&& r.engine_name@ == c.engine_name@
    &&& r.application_version == c.application_version
    &&& r.api_version == c.api_version
    &&& views(r.layers@) == layer_names(c)
    &&& views(r.extensions@) == extension_names(c, window)
}

/// Decides from the driver's layer listing whether creation may be attempted.
/// The listing is only read when diagnostics are on.
pub fn check_catalog(
    config: &BootstrapConfig,
    discovered: &Result<Vec<Vec<u8>>, DriverError>,
) -> (r: Result<(), BootstrapError>)
    ensures
        r == catalog_verdict(*config, *discovered),
{
    if !config.diagnostics_enabled {
        return Ok(());
    }
    match discovered {
        Err(e) => Err(BootstrapError::LayerQueryFailed(*e)),
        Ok(layers) => {
            if contains_name(layers, &config.validation_layer) {
                Ok(())
            } else {
                Err(BootstrapError::MissingValidationLayer)
            }
        },
    }
}

/// The layers to request under `config`.
pub fn requested_layers(config: &BootstrapConfig) -> (r: Vec<Vec<u8>>)
    ensures
        views(r@) == layer_names(*config),
{
    let mut r: Vec<Vec<u8>> = Vec::new();
    if config.diagnostics_enabled {
        r.push(config.validation_layer.clone());
    }
    assert(views(r@) =~= layer_names(*config));
    r
}

/// The extensions to request under `config`. The debug extension is appended
/// without asking the driver whether it has it: the validation layer that
/// diagnostics require is what provides it.
pub fn requested_extensions(config: &BootstrapConfig, window_extensions: Vec<Vec<u8>>) -> (r: Vec<
    Vec<u8>,
>)
    ensures
        views(r@) == extension_names(*config, views(window_extensions@)),
{
    let mut r = window_extensions;
    if config.diagnostics_enabled {
        let ghost before = r@;
        r.push(debug_utils_extension_name());
        assert(views(r@) =~= views(before).push(debug_utils_name()));
    }
    r
}

/// Negotiates the creation request: fails as `check_catalog` does, and
/// otherwise asks for the configured layers and extensions.
pub fn build_request(
    config: &BootstrapConfig,
    discovered: &Result<Vec<Vec<u8>>, DriverError>,
    window_extensions: Vec<Vec<u8>>,
) -> (r: Result<CreationRequest, BootstrapError>)
    ensures
        catalog_verdict(*config, *discovered) is Err ==> r == Err::<
            CreationRequest,
            BootstrapError,
        >(catalog_verdict(*config, *discovered)->Err_0),
        catalog_verdict(*config, *discovered) is Ok ==> r is Ok && request_matches(
            r->Ok_0,
            *config,
            views(window_extensions@),
        ),
{
    match check_catalog(config, discovered) {
        Err(e) => Err(e),
        Ok(()) => {
            Ok(
                CreationRequest {
                    application_name: config.application_name.clone(),
                    engine_name: config.engine_name.clone(),
                    application_version: config.application_version,
                    api_version: config.api_version,
                    layers: requested_layers(config),
                    extensions: requested_extensions(config, window_extensions),
                },
            )
        },
    }
}

} // verus!
