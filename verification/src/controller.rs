//! The controller's event loop, as a function from state and event to next
//! state and effects.
//!
//! The controller owns every control decision and performs none of them
//! itself: each call returns the effects that its host is to carry out, in
//! order. The host feeds it what arrives on the input queue, together with
//! the time on its monotonic clock in microseconds.

use crate::config::{Config, ControllerMode};
use crate::fixed::{clamped, lemma_product_sign, sat32, trunc_div, ONE};
use crate::vector::rect_within;
use crate::winch::{force_max_counts, force_min_counts, limited_target, step_counts, TICK_DT};
use crate::gimbal::{GimbalControlStatus, GimbalController};
use crate::timer::Timer;
use crate::lights::LightEnvironment;
use crate::message::{
    CameraTrackedRegion, Command, ConfigUpdate, GimbalCommand, GimbalPacket, GimbalValueAddress,
    GimbalValueData, ManualControlAxis, Message, TimestampedMessage, WinchCommand, WinchStatus,
};
use crate::state::{watchdog_tripped, ControllerState};
use crate::timer::ControllerTimers;
use vstd::prelude::*;

verus! {

/// What arrives on the controller's input queue.
#[derive(Clone, Debug, PartialEq)]
pub enum ControllerInput {
    Message(TimestampedMessage),
    /// Someone asks for a new receiver on the broadcast bus.
    ReaderRequest,
}

/// What the controller asks its host to do.
#[derive(Clone, Debug, PartialEq)]
pub enum Effect {
    /// Hand the requester a new receiver on the broadcast bus.
    AddReader,
    /// Broadcast the message that just came in, as it came.
    BroadcastInput,
    /// Replace the shared configuration by the controller's.
    StoreConfig,
    /// Broadcast the controller's configuration as current.
    BroadcastConfig,
    /// Send a command to a winch.
    WinchCommand(usize, WinchCommand),
    /// Send the rate command of this tick to the gimbal.
    GimbalCommand(GimbalCommand),
    /// Send the gimbal back to its centre.
    GimbalRehome,
    GimbalMotorEnable(bool),
    GimbalPacket(GimbalPacket),
    GimbalValueWrite(GimbalValueData),
    GimbalValueRequests(Vec<GimbalValueAddress>),
    /// Broadcast what the gimbal controller did in this tick.
    BroadcastGimbalStatus(GimbalControlStatus),
    /// Broadcast the rectangle from which the tracker is to start over.
    BroadcastTrackedRegion([i64; 4]),
    /// Show the light animator its new environment.
    Lights(LightEnvironment),
    /// Render the camera overlay and broadcast the scene.
    RenderOverlay,
    /// Look at the shared configuration, and report it with
    /// `config_polled` if it differs from the controller's.
    PollConfig,
    /// Log that a patch could not be merged, and why.
    LogMergeError(String),
    /// Log that the controller halts for want of news from a winch.
    LogWatchdogHalt,
}

/// The controller: its configuration, its state and its timers.
pub struct Controller {
    pub local_config: Config,
    pub state: ControllerState,
    pub timers: ControllerTimers,
    /// What the gimbal controller did in the latest tick.
    pub gimbal_status: Option<GimbalControlStatus>,
}

/// The two effects of every change of configuration: the shared
/// configuration is replaced first, and only then is the new one broadcast.
pub open spec fn config_effects() -> Seq<Effect> {
    seq![Effect::StoreConfig, Effect::BroadcastConfig]
}

/// A duration in microseconds as fixed-point seconds.
pub open spec fn seconds_of(us: u64) -> i64 {
    if us > i64::MAX as u64 {
        i64::MAX
    } else {
        us as i64
    }
}

impl Controller {
    /// Whether `after` and `effects` are how this controller answers a
    /// status of winch `id` at `now`.
    ///
    /// A winch that is not configured gets no answer. Any other gets
    /// exactly one command, the first of the effects, made under the mode
    /// in which the status arrived. After that, where a configured winch has
    /// been silent for too long, the mode is forced to `Halted` and the
    /// change of configuration takes effect.
    pub open spec fn handled_winch_status(
        &self,
        id: usize,
        status: WinchStatus,
        now: u64,
        after: &Controller,
        effects: Seq<Effect>,
    ) -> bool {
        if id < self.state.winches@.len() && id < self.local_config.winches@.len() {
            let ticked = self.state.winch_ticked(&self.local_config, id as int, &status, now);
            let command = ticked.command_for(
                &self.local_config,
                &self.local_config.winches@[id as int].calibration,
                &status,
                self.state.watchdog_ok_after(&self.local_config, id as int, &status, now),
            );
            let winches = self.state.winches@.update(
                id as int,
                ticked.after_command(&self.local_config, &status),
            );
            let tripped = !self.state.watchdog_ok_after(&self.local_config, id as int, &status, now);
            &&& exists|looped: ControllerState|
                {
                    &&& #[trigger] self.state.looped_to(&looped, winches)
                    &&& if tripped {
                        looped.followed_config(&after.local_config, &after.state)
                    } else {
                        after.state == looped
                    }
                }
            &&& after.local_config == if tripped {
                Config { mode: ControllerMode::Halted, ..self.local_config }
            } else {
                self.local_config
            }
            &&& effects == seq![Effect::WinchCommand(id, command)] + if tripped {
                seq![Effect::LogWatchdogHalt, Effect::StoreConfig, Effect::BroadcastConfig]
            } else {
                Seq::<Effect>::empty()
            }
        } else {
            *after == *self && effects == Seq::<Effect>::empty()
        }
    }

    /// Whether `after` and `effects` are how this controller answers a
    /// client's command at `now`.
    pub open spec fn handled_command(
        &self,
        command: Command,
        now: u64,
        after: &Controller,
        effects: Seq<Effect>,
    ) -> bool {
        match command {
            Command::SetMode(mode) => if mode != self.local_config.mode {
                &&& after.local_config == (Config { mode, ..self.local_config })
                &&& self.state.followed_config(&after.local_config, &after.state)
                &&& effects == config_effects()
            } else {
                *after == *self && effects == Seq::<Effect>::empty()
            },
            Command::ManualControlReset => {
                &&& after.local_config == self.local_config
                &&& after.state.manual.centered()
                &&& after.state.manual.velocity() == self.state.manual.velocity()
                &&& self.state.same_but_manual(&after.state)
                &&& effects == Seq::<Effect>::empty()
            },
            Command::ManualControlValue(axis, value) => {
                &&& after.local_config == self.local_config
                &&& after.state.manual.value(axis) == clamped(value, (-ONE) as i64, ONE)
                &&& forall|other: ManualControlAxis|
                    other != axis ==> after.state.manual.value(other) == self.state.manual.value(
                        other,
                    )
                &&& after.state.manual.velocity() == self.state.manual.velocity()
                &&& self.state.same_but_manual(&after.state)
                &&& effects == Seq::<Effect>::empty()
            },
            Command::CameraObjectDetection(objects) => {
                &&& after.local_config == self.local_config
                &&& after.state == (ControllerState {
                    detected: objects,
                    detected_at: now,
                    pending_snap: true,
                    ..self.state
                })
                &&& effects == Seq::<Effect>::empty()
            },
            Command::CameraRegionTracking(region) => {
                &&& after.local_config == self.local_config
                &&& after.state.region == if self.state.manual_active() {
                    self.state.region
                } else {
                    region
                }
                &&& after.state.pending_snap == self.state.pending_snap
                &&& self.state.same_but_tracking(&after.state)
                &&& effects == Seq::<Effect>::empty()
            },
            Command::GimbalMotorEnable(enable) => {
                &&& after.local_config == self.local_config
                &&& after.state.gimbal.motor_on == enable
                &&& after.state.gimbal.current_angles == self.state.gimbal.current_angles
                &&& after.state.gimbal.error_since == self.state.gimbal.error_since
                &&& self.state.same_but_gimbal(&after.state)
                &&& effects == seq![Effect::GimbalMotorEnable(enable)]
            },
            Command::GimbalPacket(packet) => *after == *self && effects == seq![
                Effect::GimbalPacket(packet),
            ],
            Command::GimbalValueWrite(data) => *after == *self && effects == seq![
                Effect::GimbalValueWrite(data),
            ],
            Command::GimbalValueRequests(requests) => *after == *self && effects == seq![
                Effect::GimbalValueRequests(requests),
            ],
        }
    }

    /// Whether `after` and `effects` are how this controller handles
    /// `message` at `now`. A message that the controller has no use for
    /// changes nothing and has no effect.
    pub open spec fn handled(
        &self,
        message: Message,
        now: u64,
        after: &Controller,
        effects: Seq<Effect>,
    ) -> bool {
        &&& after.timers == self.timers
        &&& after.gimbal_status == self.gimbal_status
        &&& match message {
            Message::UpdateConfig(ConfigUpdate::Merged(config)) => {
                &&& after.local_config == config
                &&& self.state.followed_config(&config, &after.state)
                &&& effects == config_effects()
            },
            Message::UpdateConfig(ConfigUpdate::Rejected(reason)) => {
                &&& after.local_config == self.local_config
                &&& after.state == self.state
                &&& effects == seq![Effect::LogMergeError(reason)]
            },
            Message::WinchStatus(id, status) => self.handled_winch_status(
                id,
                status,
                now,
                after,
                effects,
            ),
            Message::FlyerSensors(sensors) => {
                &&& after.local_config == self.local_config
                &&& after.state.flyer_sensors == Some(sensors)
                &&& self.state.same_but_sensors(&after.state)
                &&& effects == Seq::<Effect>::empty()
            },
            Message::GimbalValue(data) => {
                &&& after.local_config == self.local_config
                &&& after.state.gimbal.current_angles@ == self.state.gimbal.angles_after(data)
                &&& after.state.gimbal.error_since == self.state.gimbal.error_since
                &&& after.state.gimbal.motor_on == self.state.gimbal.motor_on
                &&& self.state.same_but_gimbal(&after.state)
                &&& effects == Seq::<Effect>::empty()
            },
            Message::Command(command) => self.handled_command(command, now, after, effects),
            _ => {
                &&& after.local_config == self.local_config
                &&& after.state == self.state
                &&& effects == Seq::<Effect>::empty()
            },
        }
    }

    /// Whether `after` and `effects` are how this controller comes out of
    /// a tick at `now`, `dt_us` microseconds after the one before, by way of
    /// the state `mid` that the manual and gimbal work of the tick leaves.
    pub open spec fn tick_outcome(
        &self,
        mid: &ControllerState,
        dt_us: u64,
        now: u64,
        after: &Controller,
        effects: Seq<Effect>,
    ) -> bool {
        let config = &self.local_config;
        let dt = seconds_of(dt_us);
        let command = self.state.gimbal.command_for(config, self.state.region.rect);
        let status = self.state.gimbal.status_for(config, self.state.region.rect, now);
        let reset = status.current_error_duration > config.gimbal.error_duration_for_rehome_us;
        &&& self.state.after_every_tick(config, dt, now, mid)
        &&& after.state.region == mid.region_after_tracking(config, dt, reset, now)
        &&& after.state.pending_snap == mid.pending_after_tracking(config, now)
        &&& mid.same_but_tracking(&after.state)
        &&& effects.len() >= 1
        &&& effects[0] matches Effect::Lights(env)
        &&& mid.lights_shown(config, self.gimbal_status, &env)
        &&& effects.skip(1) == seq![Effect::GimbalCommand(command)] + (if reset {
            seq![Effect::GimbalRehome]
        } else {
            Seq::<Effect>::empty()
        }) + seq![Effect::BroadcastGimbalStatus(status)] + (if mid.tracking_moves(
            config,
            reset,
            now,
        ) {
            seq![Effect::BroadcastTrackedRegion(after.state.region.rect)]
        } else {
            Seq::<Effect>::empty()
        })
    }

    /// Whether `after` and `effects` are how the state and configuration of
    /// this controller come out of a tick at `now`, `dt_us` microseconds
    /// after the one before.
    ///
    /// The manual controls ramp, the lights are shown their environment,
    /// with the camera's yaw as the tick before left it, the gimbal gets its
    /// rate command. An error of the gimbal that has
    /// lasted longer than the configuration allows sends the gimbal home
    /// and resets tracking. The gimbal's status is broadcast; so is the
    /// tracked rectangle where the tracking update moved it.
    pub open spec fn ticked(
        &self,
        dt_us: u64,
        now: u64,
        after: &Controller,
        effects: Seq<Effect>,
    ) -> bool {
        &&& after.local_config == self.local_config
        &&& after.gimbal_status == Some(
            self.state.gimbal.status_for(&self.local_config, self.state.region.rect, now),
        )
        &&& exists|mid: ControllerState| #[trigger]
            self.tick_outcome(&mid, dt_us, now, after, effects)
    }

    /// Whether `mid` and `effects` are how this controller takes in
    /// `input` at `now`: a reader request is granted; a message is
    /// broadcast first and handled next.
    pub open spec fn taken_in(
        &self,
        input: ControllerInput,
        now: u64,
        mid: &Controller,
        effects: Seq<Effect>,
    ) -> bool {
        match input {
            ControllerInput::ReaderRequest => *mid == *self && effects == seq![Effect::AddReader],
            ControllerInput::Message(ts_msg) => {
                &&& effects.len() >= 1
                &&& effects[0] == Effect::BroadcastInput
                &&& self.handled(ts_msg.message, now, mid, effects.skip(1))
            },
        }
    }

    /// A timer after a poll at `now`.
    pub open spec fn timer_polled(timer: Timer, now: u64) -> Timer {
        if timer.elapsed(now) {
            Timer { last_fire: now, ..timer }
        } else {
            timer
        }
    }

    /// Whether `after` and `effects` are how this controller, having taken
    /// in its input, serves its timers at `now`: the tick timer first, then
    /// the video-frame timer, then the timer of the configuration poll.
    pub open spec fn timers_served(&self, now: u64, after: &Controller, effects: Seq<Effect>) -> bool {
        let frame = if self.timers.video_frame.elapsed(now) {
            seq![Effect::RenderOverlay]
        } else {
            Seq::<Effect>::empty()
        };
        let poll = if self.timers.config_poll.elapsed(now) {
            seq![Effect::PollConfig]
        } else {
            Seq::<Effect>::empty()
        };
        &&& after.timers == (ControllerTimers {
            tick: Self::timer_polled(self.timers.tick, now),
            video_frame: Self::timer_polled(self.timers.video_frame, now),
            config_poll: Self::timer_polled(self.timers.config_poll, now),
        })
        &&& effects.len() >= frame.len() + poll.len()
        &&& effects.skip(effects.len() - frame.len() - poll.len()) == frame + poll
        &&& if self.timers.tick.elapsed(now) {
            self.ticked(
                (now - self.timers.tick.last_fire) as u64,
                now,
                after,
                effects.take(effects.len() - frame.len() - poll.len()),
            )
        } else {
            &&& after.local_config == self.local_config
            &&& after.state == self.state
            &&& after.gimbal_status == self.gimbal_status
            &&& effects.len() == frame.len() + poll.len()
        }
    }

    /// Whether `after` and `effects` are how this controller wakes up on
    /// `input` at `now`: it takes in the input, then serves its timers.
    pub open spec fn polled(
        &self,
        input: ControllerInput,
        now: u64,
        after: &Controller,
        effects: Seq<Effect>,
    ) -> bool {
        exists|mid: Controller, intake: Seq<Effect>, served: Seq<Effect>|
            {
                &&& #[trigger] self.taken_in(input, now, &mid, intake)
                &&& #[trigger] mid.timers_served(now, after, served)
                &&& effects == intake + served
            }
    }

    /// Whether no effect of `effects` commands a winch.
    pub open spec fn no_winch_commanded(effects: Seq<Effect>) -> bool {
        forall|i: int| 0 <= i < effects.len() ==> !(#[trigger] effects[i] is WinchCommand)
    }

    /// Whether no effect of `effects` commands a winch to do anything but
    /// hold, H-bridge off, the position that `message` reports for it.
    pub open spec fn winches_held(message: Message, effects: Seq<Effect>) -> bool {
        forall|i: int|
            0 <= i < effects.len() ==> match #[trigger] effects[i] {
                Effect::WinchCommand(id, command) => {
                    &&& !command.pwm.enabled
                    &&& message matches Message::WinchStatus(from, status)
                    &&& from == id
                    &&& command.position == status.sensors.position
                },
                _ => true,
            }
    }

    /// A controller at startup at `now`: the state as new, the three timers
    /// with their standard periods and just fired, no gimbal status yet.
    pub fn new(config: Config, now: u64) -> (c: Controller)
        ensures
            c.local_config == config,
            c.state.is_initial(&config, now),
            c.timers == ControllerTimers::started(now),
            c.gimbal_status is None,
    {
        let state = ControllerState::new(&config, now);
        Controller {
            local_config: config,
            state,
            timers: ControllerTimers::new(now),
            gimbal_status: None,
        }
    }

    /// The configuration that the controller works with.
    pub fn config(&self) -> (c: &Config)
        ensures
            *c == self.local_config,
    {
        &self.local_config
    }

    /// Makes a change of the local configuration take effect: the shared
    /// configuration is replaced, then the new configuration is broadcast,
    /// then the state follows the change.
    pub fn config_changed(&mut self, effects: &mut Vec<Effect>)
        ensures
            final(effects)@ == old(effects)@ + config_effects(),
            final(self).local_config == old(self).local_config,
            old(self).state.followed_config(&old(self).local_config, &final(self).state),
            final(self).timers == old(self).timers,
            final(self).gimbal_status == old(self).gimbal_status,
    {
        effects.push(Effect::StoreConfig);
        effects.push(Effect::BroadcastConfig);
        self.state.config_changed(&self.local_config);
        assert(effects@ =~= old(effects)@ + config_effects());
    }

    /// Adopts the shared configuration `latest`, which the host found to
    /// differ from the controller's.
    pub fn config_polled(&mut self, latest: Config) -> (effects: Vec<Effect>)
        ensures
            final(self).local_config == latest,
            old(self).state.followed_config(&latest, &final(self).state),
            effects@ == config_effects(),
            final(self).timers == old(self).timers,
            final(self).gimbal_status == old(self).gimbal_status,
    {
        let mut effects = Vec::new();
        self.local_config = latest;
        self.config_changed(&mut effects);
        assert(effects@ =~= config_effects());
        effects
    }

    fn handle_winch_status(&mut self, id: usize, status: WinchStatus, now: u64) -> (effects: Vec<
        Effect,
    >)
        ensures
            old(self).handled_winch_status(id, status, now, final(self), effects@),
            final(self).timers == old(self).timers,
            final(self).gimbal_status == old(self).gimbal_status,
            old(self).local_config.mode == ControllerMode::Halted ==> Self::winches_held(
                Message::WinchStatus(id, status),
                effects@,
            ),
    {
        let mut effects = Vec::new();
        if id < self.state.winches.len() && id < self.local_config.winches.len() {
            let command = self.state.winch_control_loop(&self.local_config, id, status, now);
            let ghost looped = self.state;
            let ghost config = self.local_config;
            let tripped = self.state.multi_winch_watchdog_should_halt(&self.local_config, now);
            proof {
                let updated = old(self).state.winches@.update(
                    id as int,
                    old(self).state.winch_updated(&config, id as int, &status, now),
                );
                assert(updated.len() == looped.winches@.len());
                assert forall|i: int| 0 <= i < updated.len() implies (#[trigger] updated[i]).stale(
                    &config,
                    now,
                ) == looped.winches@[i].stale(&config, now) by {}
                assert(watchdog_tripped(updated, &config, now) == watchdog_tripped(
                    looped.winches@,
                    &config,
                    now,
                )) by {
                    if watchdog_tripped(updated, &config, now) {
                        let i = choose|i: int|
                            0 <= i < updated.len() && i < config.winches@.len() && (
                            #[trigger] updated[i]).stale(&config, now);
                        assert(looped.winches@[i].stale(&config, now));
                    }
                    if watchdog_tripped(looped.winches@, &config, now) {
                        let i = choose|i: int|
                            0 <= i < looped.winches@.len() && i < config.winches@.len() && (
                            #[trigger] looped.winches@[i]).stale(&config, now);
                        assert(updated[i].stale(&config, now));
                    }
                }
            }
            effects.push(Effect::WinchCommand(id, command));
            if tripped {
                effects.push(Effect::LogWatchdogHalt);
                self.local_config.mode = ControllerMode::Halted;
                self.config_changed(&mut effects);
            }
            proof {
                assert(effects@ =~= seq![Effect::WinchCommand(id, command)] + if tripped {
                    seq![Effect::LogWatchdogHalt, Effect::StoreConfig, Effect::BroadcastConfig]
                } else {
                    Seq::<Effect>::empty()
                });
                assert(old(self).state.looped_to(&looped, looped.winches@));
                if tripped {
                    assert(looped.followed_config(&self.local_config, &self.state));
                }
            }
        }
        effects
    }

    fn handle_command(&mut self, command: Command, now: u64) -> (effects: Vec<Effect>)
        ensures
            old(self).handled_command(command, now, final(self), effects@),
            final(self).timers == old(self).timers,
            final(self).gimbal_status == old(self).gimbal_status,
            Self::no_winch_commanded(effects@),
    {
        let mut effects = Vec::new();
        match command {
            Command::CameraObjectDetection(objects) => {
                self.state.camera_object_detection_update(objects, now);
            },
            Command::CameraRegionTracking(region) => {
                self.state.camera_region_tracking_update(region);
            },
            Command::SetMode(mode) => {
                // The mode is part of the configuration, so a patch could change it
                // as well; this way is strongly typed.
                if self.local_config.mode != mode {
                    self.local_config.mode = mode;
                    self.config_changed(&mut effects);
                    assert(effects@ =~= config_effects());
                }
            },
            Command::GimbalMotorEnable(enable) => {
                self.state.gimbal.set_motor_enable(enable);
                effects.push(Effect::GimbalMotorEnable(enable));
                assert(effects@ =~= seq![Effect::GimbalMotorEnable(enable)]);
            },
            Command::GimbalPacket(packet) => {
                effects.push(Effect::GimbalPacket(packet));
                assert(effects@ =~= seq![Effect::GimbalPacket(packet)]);
            },
            Command::GimbalValueWrite(data) => {
                effects.push(Effect::GimbalValueWrite(data));
                assert(effects@ =~= seq![Effect::GimbalValueWrite(data)]);
            },
            Command::GimbalValueRequests(requests) => {
                effects.push(Effect::GimbalValueRequests(requests));
                assert(effects@ =~= seq![Effect::GimbalValueRequests(requests)]);
            },
            Command::ManualControlValue(axis, value) => {
                self.state.manual.control_value(axis, value);
            },
            Command::ManualControlReset => {
                self.state.manual.control_reset();
            },
        }
        effects
    }

    /// What the light animator is to know. The camera's yaw is that of the
    /// gimbal status of the last tick, and zero before the first tick.
    pub fn light_environment(&self) -> (env: LightEnvironment)
        ensures
            self.state.lights_shown(&self.local_config, self.gimbal_status, &env),
    {
        self.state.light_environment(&self.local_config, self.gimbal_status)
    }

    /// The work of one tick at `now`, `dt_us` microseconds after the one
    /// before. No tick commands a winch.
    pub fn tick(&mut self, dt_us: u64, now: u64) -> (effects: Vec<Effect>)
        ensures
            old(self).ticked(dt_us, now, final(self), effects@),
            final(self).timers == old(self).timers,
            Self::no_winch_commanded(effects@),
    {
        let dt: i64 = if dt_us > i64::MAX as u64 {
            i64::MAX
        } else {
            dt_us as i64
        };
        let mut effects = Vec::new();
        let (command, status) = self.state.every_tick(&self.local_config, dt, now);
        let ghost mid = self.state;
        let env = self.light_environment();
        effects.push(Effect::Lights(env));
        effects.push(Effect::GimbalCommand(command));
        let reset_tracking = status.current_error_duration
            > self.local_config.gimbal.error_duration_for_rehome_us;
        if reset_tracking {
            effects.push(Effect::GimbalRehome);
        }
        self.gimbal_status = Some(status);
        effects.push(Effect::BroadcastGimbalStatus(status));
        let moved = self.state.tracking_update(&self.local_config, dt, reset_tracking, now);
        if let Some(tracking_rect) = moved {
            effects.push(Effect::BroadcastTrackedRegion(tracking_rect));
        }
        proof {
            assert(effects@[0] == Effect::Lights(env));
            assert(effects@.skip(1) =~= seq![Effect::GimbalCommand(command)] + (if reset_tracking {
                seq![Effect::GimbalRehome]
            } else {
                Seq::<Effect>::empty()
            }) + seq![Effect::BroadcastGimbalStatus(status)] + (if moved is Some {
                seq![Effect::BroadcastTrackedRegion(self.state.region.rect)]
            } else {
                Seq::<Effect>::empty()
            }));
            assert(old(self).tick_outcome(&mid, dt_us, now, self, effects@));
        }
        effects
    }

    /// Takes in one input at `now`: grants a reader request, or broadcasts
    /// a message and then handles it.
    pub fn take_in(&mut self, input: ControllerInput, now: u64) -> (effects: Vec<Effect>)
        ensures
            old(self).taken_in(input, now, final(self), effects@),
            old(self).local_config.mode == ControllerMode::Halted ==> match input {
                ControllerInput::Message(ts_msg) => Self::winches_held(ts_msg.message, effects@),
                ControllerInput::ReaderRequest => Self::no_winch_commanded(effects@),
            },
    {
        let mut effects = Vec::new();
        match input {
            ControllerInput::ReaderRequest => {
                effects.push(Effect::AddReader);
                assert(effects@ =~= seq![Effect::AddReader]);
            },
            ControllerInput::Message(ts_msg) => {
                effects.push(Effect::BroadcastInput);
                let mut handled = self.handle_message(ts_msg, now);
                let ghost h = handled@;
                effects.append(&mut handled);
                assert(effects@.skip(1) =~= h);
                assert forall|i: int| 1 <= i < effects@.len() implies effects@[i] == h[i - 1] by {}
            },
        }
        effects
    }

    /// Serves the timers at `now`: the work of a tick if the tick timer is
    /// due, a rendering of the overlay if the video-frame timer is, a look
    /// at the shared configuration if the poll timer is. No timer commands
    /// a winch.
    pub fn serve_timers(&mut self, now: u64) -> (effects: Vec<Effect>)
        ensures
            old(self).timers_served(now, final(self), effects@),
            Self::no_winch_commanded(effects@),
    {
        let mut effects = Vec::new();
        if let Some(dt) = self.timers.tick.poll(now) {
            let ghost due = *self;
            effects = self.tick(dt, now);
            assert(old(self).ticked(dt, now, self, effects@)) by {
                let mid = choose|mid: ControllerState| #[trigger]
                    due.tick_outcome(&mid, dt, now, self, effects@);
                assert(old(self).tick_outcome(&mid, dt, now, self, effects@));
            }
        }
        let ghost ticking = effects@;
        let ghost ticked = *self;
        if self.timers.video_frame.poll(now).is_some() {
            effects.push(Effect::RenderOverlay);
        }
        let ghost framed = effects@;
        if self.timers.config_poll.poll(now).is_some() {
            effects.push(Effect::PollConfig);
        }
        proof {
            let frame = framed.skip(ticking.len() as int);
            let poll = effects@.skip(framed.len() as int);
            assert(frame =~= if old(self).timers.video_frame.elapsed(now) {
                seq![Effect::RenderOverlay]
            } else {
                Seq::<Effect>::empty()
            });
            assert(poll =~= if old(self).timers.config_poll.elapsed(now) {
                seq![Effect::PollConfig]
            } else {
                Seq::<Effect>::empty()
            });
            assert(effects@.skip(effects@.len() - frame.len() - poll.len()) =~= frame + poll);
            assert(effects@.take(effects@.len() - frame.len() - poll.len()) =~= ticking);
            if old(self).timers.tick.elapsed(now) {
                let dt = (now - old(self).timers.tick.last_fire) as u64;
                let mid = choose|mid: ControllerState| #[trigger]
                    old(self).tick_outcome(&mid, dt, now, &ticked, ticking);
                assert(old(self).tick_outcome(&mid, dt, now, self, ticking));
            }
        }
        effects
    }

    /// One wake of the event loop at `now`: takes in one input, then
    /// serves whichever timers are due.
    ///
    /// While the mode is `Halted`, a winch is never commanded anything but
    /// to hold, H-bridge off, the position that it just reported.
    pub fn poll(&mut self, input: ControllerInput, now: u64) -> (effects: Vec<Effect>)
        ensures
            old(self).polled(input, now, final(self), effects@),
            old(self).local_config.mode == ControllerMode::Halted ==> match input {
                ControllerInput::Message(ts_msg) => Self::winches_held(ts_msg.message, effects@),
                ControllerInput::ReaderRequest => Self::no_winch_commanded(effects@),
            },
    {
        let mut effects = self.take_in(input, now);
        let ghost mid = *self;
        let ghost intake = effects@;
        let mut served = self.serve_timers(now);
        let ghost s = served@;
        effects.append(&mut served);
        proof {
            assert(effects@ =~= intake + s);
            assert forall|i: int| 0 <= i < effects@.len() implies (if i < intake.len() {
                effects@[i] == intake[i]
            } else {
                effects@[i] == s[i - intake.len()]
            }) by {}
            assert(old(self).taken_in(input, now, &mid, intake));
            assert(mid.timers_served(now, self, s));
        }
        effects
    }

    /// Handles one message at `now` and returns what is to be done about
    /// it.
    ///
    /// While the mode is `Halted`, a winch is never commanded anything but
    /// to hold, H-bridge off, the position that it just reported.
    pub fn handle_message(&mut self, ts_msg: TimestampedMessage, now: u64) -> (effects: Vec<Effect>)
        ensures
            old(self).handled(ts_msg.message, now, final(self), effects@),
            old(self).local_config.mode == ControllerMode::Halted ==> Self::winches_held(
                ts_msg.message,
                effects@,
            ),
    {
        match ts_msg.message {
            Message::UpdateConfig(update) => {
                // Merge errors go to the log: errors caused by a client should
                // have been detected earlier and sent to that client.
                let mut effects = Vec::new();
                match update {
                    ConfigUpdate::Rejected(reason) => {
                        effects.push(Effect::LogMergeError(reason));
                        assert(effects@ =~= seq![Effect::LogMergeError(reason)]);
                    },
                    ConfigUpdate::Merged(config) => {
                        self.local_config = config;
                        self.config_changed(&mut effects);
                        assert(effects@ =~= config_effects());
                    },
                }
                effects
            },
            Message::WinchStatus(id, status) => self.handle_winch_status(id, status, now),
            Message::FlyerSensors(sensors) => {
                self.state.flyer_sensor_update(sensors);
                Vec::new()
            },
            Message::GimbalValue(data) => {
                self.state.gimbal_value_received(data);
                Vec::new()
            },
            Message::Command(command) => self.handle_command(command, now),
            _ => Vec::new(),
        }
    }

    /// Halted safety: while the mode is `Halted`, handling a message never
    /// commands a winch anything but to hold, H-bridge off, the position
    /// that the message reports for it.
    pub proof fn lemma_halted_safety(
        before: Controller,
        message: Message,
        now: u64,
        after: Controller,
        effects: Seq<Effect>,
    )
        requires
            before.handled(message, now, &after, effects),
            before.local_config.mode == ControllerMode::Halted,
        ensures
            Self::winches_held(message, effects),
    {
    }

    /// Manual isolation: while the mode names one winch for manual
    /// control, the status of any other winch leaves that winch's setpoint
    /// as it was, and the command that answers it holds that setpoint.
    pub proof fn lemma_manual_isolation(
        before: Controller,
        id: usize,
        status: WinchStatus,
        now: u64,
        after: Controller,
        effects: Seq<Effect>,
        manual_id: usize,
    )
        requires
            before.handled(Message::WinchStatus(id, status), now, &after, effects),
            id < before.state.winches@.len(),
            id < before.local_config.winches@.len(),
            before.local_config.mode == ControllerMode::ManualWinch(manual_id),
            manual_id != id,
        ensures
            after.state.winches@[id as int].setpoint == before.state.winches@[id as int].setpoint,
            effects.len() >= 1,
            effects[0] matches Effect::WinchCommand(to, command) && to == id && command.position
                == sat32(trunc_div(before.state.winches@[id as int].setpoint as int, ONE as int)),
    {
        let config = &before.local_config;
        let cal = &config.winches@[id as int].calibration;
        lemma_product_sign(limited_target(config, 0), TICK_DT);
        assert(step_counts(config, cal, 0) == 0);
    }

    /// Force interlock: a status that leaves the filtered force at or above
    /// the upper limit lets neither the setpoint nor the commanded position
    /// rise; one that leaves it at or below the lower limit lets neither
    /// fall. This holds for every calibration, every pair of limits and
    /// every manual velocity, in every mode; in `Halted`, where the setpoint
    /// snaps to the reported position, as far as that position allows.
    pub proof fn lemma_force_interlock(
        before: Controller,
        id: usize,
        status: WinchStatus,
        now: u64,
        after: Controller,
        effects: Seq<Effect>,
    )
        requires
            before.handled(Message::WinchStatus(id, status), now, &after, effects),
            id < before.state.winches@.len(),
            id < before.local_config.winches@.len(),
        ensures
            effects.len() >= 1,
            effects[0] matches Effect::WinchCommand(to, command) && to == id && {
                let held = before.local_config.mode != ControllerMode::Halted;
                let force = after.state.winches@[id as int].filtered_force;
                let cal = &before.local_config.winches@[id as int].calibration;
                let setpoint_before = before.state.winches@[id as int].setpoint;
                let setpoint_after = after.state.winches@[id as int].setpoint;
                let position_before = sat32(trunc_div(setpoint_before as int, ONE as int));
                &&& force >= force_max_counts(&before.local_config, cal) && (held
                    || status.sensors.position * ONE <= setpoint_before) ==> setpoint_after <= setpoint_before && command.position
                    <= position_before
                &&& force <= force_min_counts(&before.local_config, cal) && (held
                    || status.sensors.position * ONE >= setpoint_before) ==> setpoint_after >= setpoint_before && command.position
                    >= position_before
            },
    {
        let config = &before.local_config;
        let cal = &config.winches@[id as int].calibration;
        lemma_product_sign(limited_target(config, 0), TICK_DT);
        assert(step_counts(config, cal, 0) == 0);
    }

    /// Tracking containment: with a default rectangle that lies inside the
    /// border, every rectangle that a tick broadcasts for the tracker to
    /// start over from lies inside the border.
    pub proof fn lemma_tracking_containment(
        before: Controller,
        dt_us: u64,
        now: u64,
        after: Controller,
        effects: Seq<Effect>,
    )
        requires
            before.ticked(dt_us, now, &after, effects),
            rect_within(
                ControllerState::default_rect(&before.local_config),
                before.local_config.vision.border_rect,
            ),
        ensures
            forall|i: int|
                0 <= i < effects.len() ==> (#[trigger] effects[i] matches Effect::BroadcastTrackedRegion(
                    rect,
                ) ==> rect_within(rect, before.local_config.vision.border_rect)),
    {
        let config = &before.local_config;
        let dt = seconds_of(dt_us);
        let status = before.state.gimbal.status_for(config, before.state.region.rect, now);
        let reset = status.current_error_duration > config.gimbal.error_duration_for_rehome_us;
        let mid = choose|mid: ControllerState| #[trigger]
            before.tick_outcome(&mid, dt_us, now, &after, effects);
        if mid.tracking_moves(config, reset, now) {
            mid.lemma_tracking_contained(config, dt, reset, now);
        }
        let border = config.vision.border_rect;
        let tail = effects.skip(1);
        let command = seq![
            Effect::GimbalCommand(
                before.state.gimbal.command_for(config, before.state.region.rect),
            ),
        ];
        let rehome = if reset {
            seq![Effect::GimbalRehome]
        } else {
            Seq::<Effect>::empty()
        };
        let report = seq![Effect::BroadcastGimbalStatus(status)];
        let moved = if mid.tracking_moves(config, reset, now) {
            seq![Effect::BroadcastTrackedRegion(after.state.region.rect)]
        } else {
            Seq::<Effect>::empty()
        };
        let first = command + rehome;
        let most = first + report;
        assert(tail == most + moved);
        assert(tail.len() == effects.len() - 1);
        assert(tail.len() == most.len() + moved.len());
        assert(most.len() == command.len() + rehome.len() + report.len());
        assert forall|i: int| 0 <= i < effects.len() implies (
        #[trigger] effects[i] matches Effect::BroadcastTrackedRegion(rect) ==> rect_within(
            rect,
            border,
        )) by {
            if i >= 1 {
                let k = i - 1;
                assert(effects[i] == tail[k]);
                if k < most.len() {
                    assert(tail[k] == most[k]);
                    if k < first.len() {
                        assert(most[k] == first[k]);
                        if k < command.len() {
                            assert(first[k] == command[k]);
                        } else {
                            assert(first[k] == rehome[k - command.len()]);
                        }
                    } else {
                        assert(most[k] == report[k - first.len()]);
                    }
                } else {
                    assert(0 <= k - most.len() < moved.len());
                    assert((most + moved)[k] == moved[k - most.len()]);
                }
            }
        }
    }

    /// Every status of a configured winch is answered by exactly one
    /// command, to that winch, as the first effect.
    pub proof fn lemma_one_command_per_status(
        before: Controller,
        id: usize,
        status: WinchStatus,
        now: u64,
        after: Controller,
        effects: Seq<Effect>,
    )
        requires
            before.handled(Message::WinchStatus(id, status), now, &after, effects),
            id < before.state.winches@.len(),
            id < before.local_config.winches@.len(),
        ensures
            effects.len() >= 1,
            effects[0] matches Effect::WinchCommand(to, _) && to == id,
            Self::no_winch_commanded(effects.skip(1)),
    {
    }

    /// A status that arrives while some other configured winch has been
    /// silent for longer than the watchdog allows halts the controller: the
    /// status is answered, H-bridge off, and then the mode becomes `Halted`,
    /// the shared configuration is replaced, and the configuration that is
    /// broadcast as current is the halted one.
    pub proof fn lemma_watchdog_halts(
        before: Controller,
        id: usize,
        status: WinchStatus,
        now: u64,
        after: Controller,
        effects: Seq<Effect>,
        silent: int,
    )
        requires
            before.handled(Message::WinchStatus(id, status), now, &after, effects),
            id < before.state.winches@.len(),
            id < before.local_config.winches@.len(),
            0 <= silent < before.state.winches@.len(),
            silent < before.local_config.winches@.len(),
            silent != id,
            before.state.winches@[silent].stale(&before.local_config, now),
        ensures
            after.local_config.mode == ControllerMode::Halted,
            after.state.last_mode == ControllerMode::Halted,
            effects.len() == 4,
            effects[0] matches Effect::WinchCommand(to, command) && to == id
                && !command.pwm.enabled,
            effects[1] == Effect::LogWatchdogHalt,
            effects[2] == Effect::StoreConfig,
            effects[3] == Effect::BroadcastConfig,
    {
        let config = &before.local_config;
        let updated = before.state.winches@.update(
            id as int,
            before.state.winch_updated(config, id as int, &status, now),
        );
        assert(updated[silent] == before.state.winches@[silent]);
        assert(updated[silent].stale(config, now));
        assert(watchdog_tripped(updated, config, now));
    }

    /// While every configured winch reports in time, a status changes
    /// neither the mode nor anything else of the configuration.
    pub proof fn lemma_watchdog_quiet(
        before: Controller,
        id: usize,
        status: WinchStatus,
        now: u64,
        after: Controller,
        effects: Seq<Effect>,
    )
        requires
            before.handled(Message::WinchStatus(id, status), now, &after, effects),
            forall|i: int|
                0 <= i < before.state.winches@.len() && i != id ==> !(
                #[trigger] before.state.winches@[i]).stale(&before.local_config, now),
        ensures
            after.local_config == before.local_config,
            id < before.state.winches@.len() && id < before.local_config.winches@.len()
                ==> effects.len() == 1,
    {
        if id < before.state.winches@.len() && id < before.local_config.winches@.len() {
            let config = &before.local_config;
            let w = before.state.winch_updated(config, id as int, &status, now);
            let updated = before.state.winches@.update(id as int, w);
            assert(!w.stale(config, now));
            assert forall|i: int| 0 <= i < updated.len() implies !(#[trigger] updated[i]).stale(
                config,
                now,
            ) by {
                if i != id {
                    assert(updated[i] == before.state.winches@[i]);
                }
            }
        }
    }

    /// A merged patch becomes the controller's configuration; the shared
    /// configuration is replaced by it and it is then broadcast as current,
    /// in that order and with nothing in between.
    pub proof fn lemma_config_round_trip(
        before: Controller,
        config: Config,
        now: u64,
        after: Controller,
        effects: Seq<Effect>,
    )
        requires
            before.handled(Message::UpdateConfig(ConfigUpdate::Merged(config)), now, &after, effects),
        ensures
            after.local_config == config,
            after.state.last_mode == config.mode,
            effects == seq![Effect::StoreConfig, Effect::BroadcastConfig],
    {
    }

    /// A patch that could not be merged leaves the configuration alone.
    pub proof fn lemma_rejected_patch_ignored(
        before: Controller,
        reason: String,
        now: u64,
        after: Controller,
        effects: Seq<Effect>,
    )
        requires
            before.handled(Message::UpdateConfig(ConfigUpdate::Rejected(reason)), now, &after, effects),
        ensures
            after.local_config == before.local_config,
            after.state == before.state,
            effects == seq![Effect::LogMergeError(reason)],
    {
    }

    /// Whenever handling a message changes the configuration, the shared
    /// configuration is replaced and the new configuration is broadcast right
    /// after.
    pub proof fn lemma_store_before_broadcast(
        before: Controller,
        message: Message,
        now: u64,
        after: Controller,
        effects: Seq<Effect>,
    )
        requires
            before.handled(message, now, &after, effects),
            after.local_config != before.local_config,
        ensures
            exists|i: int|
                0 <= i && i + 1 < effects.len() && #[trigger] effects[i] == Effect::StoreConfig
                    && effects[i + 1] == Effect::BroadcastConfig,
    {
        match message {
            Message::WinchStatus(id, status) => {
                assert(effects[2] == Effect::StoreConfig);
                assert(effects[3] == Effect::BroadcastConfig);
            },
            Message::UpdateConfig(ConfigUpdate::Merged(config)) => {
                assert(effects[0] == Effect::StoreConfig);
                assert(effects[1] == Effect::BroadcastConfig);
            },
            Message::Command(Command::SetMode(mode)) => {
                assert(effects[0] == Effect::StoreConfig);
                assert(effects[1] == Effect::BroadcastConfig);
            },
            _ => {},
        }
    }

    /// A change of mode halts all motion: where a mode command changes
    /// the mode, the manual controls end up centred and every integrator
    /// zero.
    pub proof fn lemma_mode_change_halts_motion(
        before: Controller,
        mode: ControllerMode,
        now: u64,
        after: Controller,
        effects: Seq<Effect>,
    )
        requires
            before.handled(Message::Command(Command::SetMode(mode)), now, &after, effects),
            before.state.last_mode == before.local_config.mode,
            mode != before.local_config.mode,
        ensures
            after.local_config.mode == mode,
            after.state.manual.centered(),
            after.state.winches@.len() == before.state.winches@.len(),
            forall|i: int|
                0 <= i < after.state.winches@.len() ==> (
                #[trigger] after.state.winches@[i]).position_err_integral == 0,
    {
    }
}

} // verus!
