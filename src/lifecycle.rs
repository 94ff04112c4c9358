//! The application's lifecycle: it owns the right to the instance and to its
//! debug channel, and decides each step of creation and teardown. The driver
//! calls themselves are made by the caller, who reports their outcome.
use vstd::prelude::*;

use crate::builder::{
    build_request, catalog_verdict, extension_names, layer_names, request_matches,
    BootstrapConfig, CreationRequest,
};
use crate::diagnostics::{channel_request, subscription_matches, ChannelRequest};
use crate::error::{BootstrapError, DriverError, LifecycleError};
use crate::names::{
    debug_utils_name, lemma_absent_occurs_never, lemma_push_occurs_once_more, occurrences, views,
};

verus! {

/// The lifecycle as callers see it.
#[derive(Clone, Copy, Debug, PartialEq, Eq, Structural)]
pub enum Phase {
    Uninitialized,
    Created,
    Destroyed,
}

/// Progress through creation and teardown.
#[derive(Clone, Copy, Debug, PartialEq, Eq, Structural)]
pub enum Stage {
    /// Nothing acquired; the layers are not yet checked.
    Idle,
    /// The creation request was handed out; the instance may be created.
    Negotiated,
    /// The instance is live; its debug channel is still to be installed.
    InstanceLive,
    /// Ready to render.
    Created,
    /// Installing the debug channel failed; the instance must be destroyed.
    RollingBack,
    /// The debug channel is gone; the instance goes next.
    TearingDown,
    /// Both handles are released.
    Destroyed,
}

/// The next driver call that teardown needs.
#[derive(Clone, Copy, Debug, PartialEq, Eq, Structural)]
pub enum Teardown {
    UninstallChannel,
    DestroyInstance,
}

/// The model of a lifecycle.
pub struct LifecycleView {
    pub config: BootstrapConfig,
    pub stage: Stage,
    pub instance_live: bool,
    pub channel_live: bool,
}

/// The phase of a stage.
pub open spec fn phase_of(s: Stage) -> Phase {
    match s {
        Stage::Created => Phase::Created,
        Stage::TearingDown => Phase::Created,
        Stage::Destroyed => Phase::Destroyed,
        _ => Phase::Uninitialized,
    }
}

impl LifecycleView {
    /// Which handles each stage holds. A debug channel lives exactly when
    /// diagnostics are on and creation has succeeded.
    pub open spec fn wf(self) -> bool {
        &&& self.channel_live ==> self.instance_live
        &&& match self.stage {
            Stage::Idle | Stage::Negotiated | Stage::Destroyed => !self.instance_live
                && !self.channel_live,
            Stage::InstanceLive => self.instance_live && !self.channel_live
                && self.config.diagnostics_enabled,
            Stage::Created => self.instance_live && self.channel_live
                == self.config.diagnostics_enabled,
            Stage::RollingBack | Stage::TearingDown => self.instance_live && !self.channel_live,
        }
    }

    /// The same model at another stage.
    pub open spec fn at(self, stage: Stage) -> LifecycleView {
        LifecycleView { stage, ..self }
    }
}

/// A fresh lifecycle under `c`.
pub open spec fn initial(c: BootstrapConfig) -> LifecycleView {
    LifecycleView { config: c, stage: Stage::Idle, instance_live: false, channel_live: false }
}

/// The model after negotiation with the given layer listing.
pub open spec fn after_negotiate(
    v: LifecycleView,
    discovered: Result<Vec<Vec<u8>>, DriverError>,
) -> LifecycleView {
    if v.stage == Stage::Idle && catalog_verdict(v.config, discovered) is Ok {
        v.at(Stage::Negotiated)
    } else {
        v
    }
}

/// The model after the driver answered the creation call.
pub open spec fn after_instance(v: LifecycleView, outcome: Result<(), DriverError>) -> LifecycleView {
    if v.stage != Stage::Negotiated {
        v
    } else if outcome is Err {
        v.at(Stage::Idle)
    } else {
        LifecycleView {
            stage: if v.config.diagnostics_enabled {
                Stage::InstanceLive
            } else {
                Stage::Created
            },
            instance_live: true,
            ..v
        }
    }
}

/// What the creation step returns.
pub open spec fn instance_result(v: LifecycleView, outcome: Result<(), DriverError>) -> Result<
    (),
    BootstrapError,
> {
    if v.stage != Stage::Negotiated {
        Err(BootstrapError::OutOfOrder)
    } else {
        match outcome {
            Err(e) => Err(BootstrapError::DriverRejected(e)),
            Ok(()) => Ok(()),
        }
    }
}

/// The model after the driver answered the channel installation.
pub open spec fn after_channel(v: LifecycleView, outcome: Result<(), DriverError>) -> LifecycleView {
    if v.stage != Stage::InstanceLive {
        v
    } else if outcome is Err {
        v.at(Stage::RollingBack)
    } else {
        LifecycleView { stage: Stage::Created, channel_live: true, ..v }
    }
}

/// What the channel installation step returns.
pub open spec fn channel_result(v: LifecycleView, outcome: Result<(), DriverError>) -> Result<
    (),
    BootstrapError,
> {
    if v.stage != Stage::InstanceLive {
        Err(BootstrapError::OutOfOrder)
    } else {
        match outcome {
            Err(e) => Err(BootstrapError::DriverRejected(e)),
            Ok(()) => Ok(()),
        }
    }
}

/// The next teardown call: the channel strictly before the instance.
pub open spec fn teardown_step(v: LifecycleView) -> Option<Teardown> {
    if v.channel_live {
        Some(Teardown::UninstallChannel)
    } else if v.instance_live {
        Some(Teardown::DestroyInstance)
    } else {
        None
    }
}

/// What removing the debug channel returns.
pub open spec fn uninstall_result(v: LifecycleView) -> Result<(), LifecycleError> {
    if v.channel_live {
        Ok(())
    } else {
        Err(LifecycleError::NoChannel)
    }
}

/// The model after the debug channel was removed.
pub open spec fn after_uninstall(v: LifecycleView) -> LifecycleView {
    if v.channel_live {
        LifecycleView { stage: Stage::TearingDown, channel_live: false, ..v }
    } else {
        v
    }
}

/// What destroying the instance returns: refused while its channel lives.
pub open spec fn destroy_result(v: LifecycleView) -> Result<(), LifecycleError> {
    if v.channel_live {
        Err(LifecycleError::ChannelStillInstalled)
    } else if !v.instance_live {
        Err(LifecycleError::NoInstance)
    } else {
        Ok(())
    }
}

/// The model after the instance was destroyed. A teardown from the created
/// phase ends in `Destroyed`; one that undoes a failed creation starts over.
pub open spec fn after_destroy(v: LifecycleView) -> LifecycleView {
    if destroy_result(v) is Err {
        v
    } else {
        LifecycleView {
            stage: if phase_of(v.stage) == Phase::Created {
                Stage::Destroyed
            } else {
                Stage::Idle
            },
            instance_live: false,
            ..v
        }
    }
}

/// With diagnostics off, no layer is asked for, no extension is added, the
/// layer listing is not consulted, no channel is subscribed, and creation
/// succeeds as soon as the driver creates the instance.
pub proof fn lemma_quiet_creation(
    c: BootstrapConfig,
    discovered: Result<Vec<Vec<u8>>, DriverError>,
    window: Seq<Seq<u8>>,
    subscription: Option<ChannelRequest>,
)
    requires
        !c.diagnostics_enabled,
    ensures
        catalog_verdict(c, discovered) == Ok::<(), BootstrapError>(()),
        layer_names(c) == Seq::<Seq<u8>>::empty(),
        extension_names(c, window) == window,
        subscription_matches(subscription, c) ==> subscription is None,
        after_negotiate(initial(c), discovered).stage == Stage::Negotiated,
        instance_result(after_negotiate(initial(c), discovered), Ok(())) is Ok,
        after_instance(after_negotiate(initial(c), discovered), Ok(())).stage == Stage::Created,
        !after_instance(after_negotiate(initial(c), discovered), Ok(())).channel_live,
{
    assert(layer_names(c) =~= Seq::<Seq<u8>>::empty());
}

/// With diagnostics off, no state holds a debug channel, so teardown never
/// removes one and a request to remove one is refused.
pub proof fn lemma_quiet_never_uninstalls(v: LifecycleView)
    requires
        v.wf(),
        !v.config.diagnostics_enabled,
    ensures
        !v.channel_live,
        teardown_step(v) != Some(Teardown::UninstallChannel),
        uninstall_result(v) == Err::<(), LifecycleError>(LifecycleError::NoChannel),
{
}

/// With diagnostics on and the validation layer missing from the listing,
/// negotiation fails with `MissingValidationLayer`, the lifecycle stays where
/// it was, and no creation outcome is accepted: no instance comes to exist.
pub proof fn lemma_missing_layer_stops_creation(
    c: BootstrapConfig,
    layers: Vec<Vec<u8>>,
    outcome: Result<(), DriverError>,
)
    requires
        c.diagnostics_enabled,
        !views(layers@).contains(c.validation_layer@),
    ensures
        catalog_verdict(c, Ok(layers)) == Err::<(), BootstrapError>(
            BootstrapError::MissingValidationLayer,
        ),
        after_negotiate(initial(c), Ok(layers)) == initial(c),
        instance_result(initial(c), outcome) == Err::<(), BootstrapError>(
            BootstrapError::OutOfOrder,
        ),
        !after_instance(initial(c), outcome).instance_live,
{
}

/// With diagnostics on and the validation layer present, the debug extension
/// is asked for exactly once (provided the window did not already ask for
/// it), and once the driver creates the instance and the channel, the
/// channel is installed.
pub proof fn lemma_diagnostics_request_channel(
    c: BootstrapConfig,
    layers: Vec<Vec<u8>>,
    window: Seq<Seq<u8>>,
    subscription: Option<ChannelRequest>,
)
    requires
        c.diagnostics_enabled,
        views(layers@).contains(c.validation_layer@),
        !window.contains(debug_utils_name()),
    ensures
        occurrences(extension_names(c, window), debug_utils_name()) == 1,
        layer_names(c) == seq![c.validation_layer@],
        subscription_matches(subscription, c) ==> subscription is Some,
        ({
            let v = after_instance(after_negotiate(initial(c), Ok(layers)), Ok(()));
            &&& v.stage == Stage::InstanceLive
            &&& after_channel(v, Ok(())).stage == Stage::Created
            &&& after_channel(v, Ok(())).channel_live
        }),
{
    lemma_absent_occurs_never(window, debug_utils_name());
    lemma_push_occurs_once_more(window, debug_utils_name());
}

/// Teardown removes the debug channel strictly before the instance: while
/// the channel is installed, teardown asks for its removal and destroying the
/// instance is refused; once it is removed, the instance goes, and a created
/// lifecycle ends destroyed with nothing held.
pub proof fn lemma_teardown_order(v: LifecycleView)
    requires
        v.wf(),
        v.channel_live,
    ensures
        teardown_step(v) == Some(Teardown::UninstallChannel),
        destroy_result(v) == Err::<(), LifecycleError>(LifecycleError::ChannelStillInstalled),
        after_destroy(v) == v,
        uninstall_result(v) is Ok,
        teardown_step(after_uninstall(v)) == Some(Teardown::DestroyInstance),
        destroy_result(after_uninstall(v)) is Ok,
        after_destroy(after_uninstall(v)).stage == Stage::Destroyed,
        teardown_step(after_destroy(after_uninstall(v))) == None::<Teardown>,
{
}

/// The verdict on a layer listing depends only on the set of names in it,
/// not on their order or on repeats.
pub proof fn lemma_catalog_is_a_set(
    c: BootstrapConfig,
    a: Vec<Vec<u8>>,
    b: Vec<Vec<u8>>,
)
    requires
        views(a@).to_set() == views(b@).to_set(),
    ensures
        catalog_verdict(c, Ok(a)) == catalog_verdict(c, Ok(b)),
{
    let name = c.validation_layer@;
    assert(views(a@).contains(name) == views(a@).to_set().contains(name));
    assert(views(b@).contains(name) == views(b@).to_set().contains(name));
}

/// The state of one application's instance and debug channel.
pub struct Lifecycle {
    config: BootstrapConfig,
    stage: Stage,
    instance_live: bool,
    channel_live: bool,
}

impl View for Lifecycle {
    type V = LifecycleView;

    closed spec fn view(&self) -> LifecycleView {
        LifecycleView {
            config: self.config,
            stage: self.stage,
            instance_live: self.instance_live,
            channel_live: self.channel_live,
        }
    }
}

impl Lifecycle {
    /// A lifecycle that has acquired nothing yet.
    pub fn new(config: BootstrapConfig) -> (r: Self)
        ensures
            r@ == initial(config),
            r@.wf(),
    {
        Lifecycle { config, stage: Stage::Idle, instance_live: false, channel_live: false }
    }

    /// The configuration this lifecycle runs under.
    pub fn config(&self) -> (r: &BootstrapConfig)
        ensures
            *r == self@.config,
    {
        &self.config
    }

    /// The current stage.
    pub fn stage(&self) -> (r: Stage)
        ensures
            r == self@.stage,
    {
        self.stage
    }

    /// The current phase.
    pub fn phase(&self) -> (r: Phase)
        ensures
            r == phase_of(self@.stage),
    {
        match self.stage {
            Stage::Created => Phase::Created,
            Stage::TearingDown => Phase::Created,
            Stage::Destroyed => Phase::Destroyed,
            _ => Phase::Uninitialized,
        }
    }

    /// Whether the instance is live.
    pub fn has_instance(&self) -> (r: bool)
        ensures
            r == self@.instance_live,
    {
        self.instance_live
    }

    /// Whether the debug channel is installed.
    pub fn has_debug_channel(&self) -> (r: bool)
        ensures
            r == self@.channel_live,
    {
        self.channel_live
    }

    /// Checks the driver's layer listing and, when the bootstrap may go on,
    /// hands out the creation request. Only the first step of creation.
    pub fn negotiate(
        &mut self,
        discovered: &Result<Vec<Vec<u8>>, DriverError>,
        window_extensions: Vec<Vec<u8>>,
    ) -> (r: Result<CreationRequest, BootstrapError>)
        requires
            old(self)@.wf(),
        ensures
            final(self)@.wf(),
            final(self)@ == after_negotiate(old(self)@, *discovered),
            old(self)@.stage != Stage::Idle ==> r == Err::<CreationRequest, BootstrapError>(
                BootstrapError::OutOfOrder,
            ),
            old(self)@.stage == Stage::Idle && catalog_verdict(old(self)@.config, *discovered) is Err
                ==> r == Err::<CreationRequest, BootstrapError>(
                catalog_verdict(old(self)@.config, *discovered)->Err_0,
            ),
            old(self)@.stage == Stage::Idle && catalog_verdict(old(self)@.config, *discovered) is Ok
                ==> r is Ok && request_matches(
                r->Ok_0,
                old(self)@.config,
                views(window_extensions@),
            ),
    {
        if self.stage != Stage::Idle {
            return Err(BootstrapError::OutOfOrder);
        }
        let r = build_request(&self.config, discovered, window_extensions);
        if r.is_ok() {
            self.stage = Stage::Negotiated;
        }
        r
    }

    /// Records the driver's answer to the creation call. On success it hands
    /// out the debug channel to install, if diagnostics are on; on failure
    /// nothing is held and creation may start over.
    pub fn instance_created(&mut self, outcome: Result<(), DriverError>) -> (r: Result<
        Option<ChannelRequest>,
        BootstrapError,
    >)
        requires
            old(self)@.wf(),
        ensures
            final(self)@.wf(),
            final(self)@ == after_instance(old(self)@, outcome),
            r is Err <==> instance_result(old(self)@, outcome) is Err,
            r is Err ==> r->Err_0 == instance_result(old(self)@, outcome)->Err_0,
            r is Ok ==> subscription_matches(r->Ok_0, old(self)@.config),
    {
        if self.stage != Stage::Negotiated {
            return Err(BootstrapError::OutOfOrder);
        }
        match outcome {
            Err(e) => {
                self.stage = Stage::Idle;
                Err(BootstrapError::DriverRejected(e))
            },
            Ok(()) => {
                self.instance_live = true;
                if self.config.diagnostics_enabled {
                    self.stage = Stage::InstanceLive;
                } else {
                    self.stage = Stage::Created;
                }
                Ok(channel_request(&self.config))
            },
        }
    }

    /// Records the driver's answer to installing the debug channel. On
    /// failure the instance must be destroyed before creation starts over.
    pub fn channel_installed(&mut self, outcome: Result<(), DriverError>) -> (r: Result<
        (),
        BootstrapError,
    >)
        requires
            old(self)@.wf(),
        ensures
            final(self)@.wf(),
            final(self)@ == after_channel(old(self)@, outcome),
            r == channel_result(old(self)@, outcome),
    {
        if self.stage != Stage::InstanceLive {
            return Err(BootstrapError::OutOfOrder);
        }
        match outcome {
            Err(e) => {
                self.stage = Stage::RollingBack;
                Err(BootstrapError::DriverRejected(e))
            },
            Ok(()) => {
                self.channel_live = true;
                self.stage = Stage::Created;
                Ok(())
            },
        }
    }

    /// The per-frame hook. Nothing is drawn yet; it only refuses to run
    /// outside the created state.
    pub fn render(&self) -> (r: Result<(), LifecycleError>)
        ensures
            r is Ok <==> self@.stage == Stage::Created,
            r is Err ==> r->Err_0 == LifecycleError::NotCreated,
    {
        if self.stage == Stage::Created {
            Ok(())
        } else {
            Err(LifecycleError::NotCreated)
        }
    }

    /// The next driver call of teardown, or `None` when nothing is held.
    pub fn next_teardown(&self) -> (r: Option<Teardown>)
        ensures
            r == teardown_step(self@),
    {
        if self.channel_live {
            Some(Teardown::UninstallChannel)
        } else if self.instance_live {
            Some(Teardown::DestroyInstance)
        } else {
            None
        }
    }

    /// Records that the debug channel was removed.
    pub fn channel_uninstalled(&mut self) -> (r: Result<(), LifecycleError>)
        requires
            old(self)@.wf(),
        ensures
            final(self)@.wf(),
            final(self)@ == after_uninstall(old(self)@),
            r == uninstall_result(old(self)@),
    {
        if !self.channel_live {
            return Err(LifecycleError::NoChannel);
        }
        self.channel_live = false;
        self.stage = Stage::TearingDown;
        Ok(())
    }

    /// Records that the instance was destroyed. Refused while the debug
    /// channel is still installed.
    pub fn instance_destroyed(&mut self) -> (r: Result<(), LifecycleError>)
        requires
            old(self)@.wf(),
        ensures
            final(self)@.wf(),
            final(self)@ == after_destroy(old(self)@),
            r == destroy_result(old(self)@),
    {
        if self.channel_live {
            return Err(LifecycleError::ChannelStillInstalled);
        }
        if !self.instance_live {
            return Err(LifecycleError::NoInstance);
        }
        self.instance_live = false;
        if self.stage == Stage::Created || self.stage == Stage::TearingDown {
            self.stage = Stage::Destroyed;
        } else {
            self.stage = Stage::Idle;
        }
        Ok(())
    }
}

} // verus!
