//! The corrective pulse task: a small state machine stepped on every task
//! tick, driving one timed open-then-close of the osmosis valve.

use vstd::prelude::*;
use crate::gui::{GuiEvent, LogLevel, LogMessage};
use crate::monitor::PulseMonitor;
use crate::codec::SerialCommand;
use crate::scheduler::{Action, Channel, HardwareError, SchedulerActor};

verus! {

/// Where a pulse task stands.
#[derive(Clone, Copy, Debug, PartialEq, Eq, Structural)]
pub enum AddOsmoseurWaterStatus {
    /// Waiting to take the actuator lock.
    WaitLock,
    /// Open command sent; waiting for the board to confirm.
    WaitOpen,
    /// Close command sent; waiting for the board to confirm.
    WaitClose,
    /// Valve open; waiting out the pulse duration.
    WaitDuration,
}

/// A board that never confirms the valve open within this many seconds is
/// taken as failed: the task then poisons the lock instead of lingering.
pub const WAIT_OPEN_TIMEOUT: u64 = 5;

/// One in-flight corrective pulse.
pub struct AddOsmoseurWaterTask {
    pub status: AddOsmoseurWaterStatus,
    /// Pulse length in seconds.
    pub duration: u64,
    /// Second at which the board confirmed the valve open.
    pub begin: Option<u64>,
    /// Second at which the open command went out.
    pub sent_open: Option<u64>,
    /// The channel whose monitor is resumed when the pulse completes.
    pub channel: Channel,
}

impl AddOsmoseurWaterTask {
    /// A task that waits on the board knows when it asked; one that waits
    /// out its duration knows when it began.
    pub open spec fn wf(self) -> bool {
        &&& (self.status == AddOsmoseurWaterStatus::WaitDuration ==> self.begin is Some)
        &&& (self.status == AddOsmoseurWaterStatus::WaitOpen ==> self.sent_open is Some)
    }

    pub fn new(duration: u64, channel: Channel) -> (r: AddOsmoseurWaterTask)
        ensures
            r == (AddOsmoseurWaterTask {
                status: AddOsmoseurWaterStatus::WaitLock,
                duration,
                begin: None,
                sent_open: None,
                channel,
            }),
            r.wf(),
    {
        AddOsmoseurWaterTask {
            status: AddOsmoseurWaterStatus::WaitLock,
            begin: None,
            sent_open: None,
            duration,
            channel,
        }
    }
}

/// What one task step leaves behind: the scheduler fields it may touch, the
/// task slot, and the actions it emits.
pub open spec fn task_step_post(
    pre: SchedulerActor,
    post: SchedulerActor,
    acts: Seq<Action>,
    task: AddOsmoseurWaterTask,
    now: u64,
) -> bool {
    match task.status {
        AddOsmoseurWaterStatus::WaitLock => {
            if !pre.osmoseur_pump.locked {
                // take the lock, clear the confirmation, command the valve open
                &&& post == (SchedulerActor {
                    osmoseur_pump: post.osmoseur_pump,
                    add_osmosed_water_task: post.add_osmosed_water_task,
                    ..pre
                })
                &&& post.osmoseur_pump == (crate::scheduler::PumpHardwareLock {
                    locked: true,
                    opened: None,
                    ..pre.osmoseur_pump
                })
                &&& post.add_osmosed_water_task == Some(
                    AddOsmoseurWaterTask {
                        status: AddOsmoseurWaterStatus::WaitOpen,
                        sent_open: Some(now),
                        ..task
                    },
                )
                &&& acts == seq![Action::Send(SerialCommand::S0 { on: true })]
            } else {
                // lock held (possibly by a poisoned path): keep waiting
                &&& post == (SchedulerActor { add_osmosed_water_task: post.add_osmosed_water_task, ..pre })
                &&& post.add_osmosed_water_task == Some(task)
                &&& acts == Seq::<Action>::empty()
            }
        },
        AddOsmoseurWaterStatus::WaitOpen => {
            if pre.osmoseur_pump.poisoned is Some {
                // a poisoned lock is terminal: drop the task, keep the lock
                &&& post == (SchedulerActor { add_osmosed_water_task: None, ..pre })
                &&& acts == seq![
                    Action::Ui(
                        GuiEvent::Log(now, LogMessage::OsmoseurValveOpenFailed, LogLevel::Error),
                    ),
                ]
            } else {
                match pre.osmoseur_pump.opened {
                Some(true) => {
                    // stamp the beginning of the pulse
                    &&& post == (SchedulerActor { add_osmosed_water_task: post.add_osmosed_water_task, ..pre })
                    &&& post.add_osmosed_water_task == Some(
                        AddOsmoseurWaterTask {
                            status: AddOsmoseurWaterStatus::WaitDuration,
                            begin: Some(now),
                            ..task
                        },
                    )
                    &&& acts == seq![
                        Action::Ui(GuiEvent::Log(now, LogMessage::OsmoseurValveOpened, LogLevel::Info)),
                    ]
                },
                Some(false) => {
                    // hardware refused: drop the task, keep the lock held
                    &&& post == (SchedulerActor { add_osmosed_water_task: None, ..pre })
                    &&& acts == seq![
                        Action::Ui(
                            GuiEvent::Log(now, LogMessage::OsmoseurValveOpenFailed, LogLevel::Error),
                        ),
                    ]
                },
                None => {
                    if now >= task.sent_open.unwrap() && now - task.sent_open.unwrap()
                        >= WAIT_OPEN_TIMEOUT {
                        // no confirmation in time: poison the lock, drop the task
                        &&& post == (SchedulerActor {
                            osmoseur_pump: post.osmoseur_pump,
                            add_osmosed_water_task: None,
                            ..pre
                        })
                        &&& post.osmoseur_pump.locked == pre.osmoseur_pump.locked
                        &&& post.osmoseur_pump.opened == pre.osmoseur_pump.opened
                        &&& post.osmoseur_pump.poisoned is Some
                        &&& acts == seq![
                            Action::Ui(
                                GuiEvent::Log(
                                    now,
                                    LogMessage::OsmoseurValveOpenFailed,
                                    LogLevel::Error,
                                ),
                            ),
                        ]
                    } else {
                        &&& post == (SchedulerActor { add_osmosed_water_task: post.add_osmosed_water_task, ..pre })
                        &&& post.add_osmosed_water_task == Some(task)
                        &&& acts == seq![
                            Action::Ui(
                                GuiEvent::Log(now, LogMessage::OsmoseurValveWaitOpen, LogLevel::Info),
                            ),
                        ]
                    }
                },
                }
            }
        },
        AddOsmoseurWaterStatus::WaitDuration => {
            if now >= task.begin.unwrap() && now - task.begin.unwrap() >= task.duration {
                // pulse over: command the valve closed
                &&& post == (SchedulerActor { add_osmosed_water_task: post.add_osmosed_water_task, ..pre })
                &&& post.add_osmosed_water_task == Some(
                    AddOsmoseurWaterTask { status: AddOsmoseurWaterStatus::WaitClose, ..task },
                )
                &&& acts == seq![
                    Action::Send(SerialCommand::S0 { on: false }),
                    Action::Ui(GuiEvent::Log(now, LogMessage::OsmoseurValveWaitClose, LogLevel::Info)),
                ]
            } else {
                &&& post == (SchedulerActor { add_osmosed_water_task: post.add_osmosed_water_task, ..pre })
                &&& post.add_osmosed_water_task == Some(task)
                &&& acts == Seq::<Action>::empty()
            }
        },
        AddOsmoseurWaterStatus::WaitClose => {
            if pre.osmoseur_pump.opened != Some(true) {
                // done: resume the arming monitor, release the lock, drop the task
                &&& post == (SchedulerActor {
                    osmoseur_pump: post.osmoseur_pump,
                    tds_monitor: post.tds_monitor,
                    ph_monitor: post.ph_monitor,
                    add_osmosed_water_task: None,
                    ..pre
                })
                &&& post.osmoseur_pump == (crate::scheduler::PumpHardwareLock {
                    locked: false,
                    ..pre.osmoseur_pump
                })
                &&& post.tds_monitor == (if task.channel == Channel::Tds {
                    PulseMonitor { suspend: false, ..pre.tds_monitor }
                } else {
                    pre.tds_monitor
                })
                &&& post.ph_monitor == (if task.channel == Channel::Ph {
                    PulseMonitor { suspend: false, ..pre.ph_monitor }
                } else {
                    pre.ph_monitor
                })
                &&& acts == seq![
                    Action::Ui(GuiEvent::Log(now, LogMessage::OsmoseurValveClosed, LogLevel::Info)),
                ]
            } else {
                &&& post == (SchedulerActor { add_osmosed_water_task: post.add_osmosed_water_task, ..pre })
                &&& post.add_osmosed_water_task == Some(task)
                &&& acts == Seq::<Action>::empty()
            }
        },
    }
}

impl SchedulerActor {
    /// Step one pulse task: take the lock, drive the valve open, wait out
    /// the duration, drive it closed, then resume the arming monitor and
    /// release the lock. A hardware refusal drops the task and leaves the
    /// lock held, which blocks all later tasks. The stepped task is put
    /// back into the scheduler's slot unless it finished or failed.
    pub fn update_add_osmosed_water_task(
        &mut self,
        task: AddOsmoseurWaterTask,
        now: u64,
    ) -> (acts: Vec<Action>)
        requires
            old(self).wf(),
            task.wf(),
            task.channel == Channel::Tds ==> old(self).tds_monitor.suspend,
            task.channel == Channel::Ph ==> old(self).ph_monitor.suspend,
            task.status != AddOsmoseurWaterStatus::WaitLock ==> old(self).osmoseur_pump.locked,
        ensures
            final(self).wf(),
            task_step_post(*old(self), *final(self), acts@, task, now),
    {
        let mut task = task;
        let mut acts: Vec<Action> = Vec::new();
        match task.status {
            AddOsmoseurWaterStatus::WaitLock => {
                if !self.osmoseur_pump.locked {
                    self.osmoseur_pump.locked = true;
                    self.osmoseur_pump.opened = None;
                    acts.push(Action::Send(SerialCommand::S0 { on: true }));
                    task.status = AddOsmoseurWaterStatus::WaitOpen;
                    task.sent_open = Some(now);
                    proof {
                        assert(acts@ =~= seq![Action::Send(SerialCommand::S0 { on: true })]);
                    }
                }
            },
            AddOsmoseurWaterStatus::WaitOpen => {
                let poisoned = self.osmoseur_pump.poisoned.is_some();
                if poisoned {
                    acts.push(
                        Action::Ui(
                            GuiEvent::Log(now, LogMessage::OsmoseurValveOpenFailed, LogLevel::Error),
                        ),
                    );
                    self.add_osmosed_water_task = None;
                    proof {
                        assert(acts@ =~= seq![
                            Action::Ui(
                                GuiEvent::Log(
                                    now,
                                    LogMessage::OsmoseurValveOpenFailed,
                                    LogLevel::Error,
                                ),
                            ),
                        ]);
                    }
                    return acts;
                }
                match self.osmoseur_pump.opened {
                    Some(true) => {
                        acts.push(
                            Action::Ui(
                                GuiEvent::Log(now, LogMessage::OsmoseurValveOpened, LogLevel::Info),
                            ),
                        );
                        task.begin = Some(now);
                        task.status = AddOsmoseurWaterStatus::WaitDuration;
                        proof {
                            assert(acts@ =~= seq![
                                Action::Ui(
                                    GuiEvent::Log(
                                        now,
                                        LogMessage::OsmoseurValveOpened,
                                        LogLevel::Info,
                                    ),
                                ),
                            ]);
                        }
                    },
                    Some(false) => {
                        acts.push(
                            Action::Ui(
                                GuiEvent::Log(
                                    now,
                                    LogMessage::OsmoseurValveOpenFailed,
                                    LogLevel::Error,
                                ),
                            ),
                        );
                        self.add_osmosed_water_task = None;
                        proof {
                            assert(acts@ =~= seq![
                                Action::Ui(
                                    GuiEvent::Log(
                                        now,
                                        LogMessage::OsmoseurValveOpenFailed,
                                        LogLevel::Error,
                                    ),
                                ),
                            ]);
                        }
                        return acts;
                    },
                    None => {
                        let sent = match task.sent_open {
                            Some(s) => s,
                            None => 0,
                        };
                        if now >= sent && now - sent >= WAIT_OPEN_TIMEOUT {
                            acts.push(
                                Action::Ui(
                                    GuiEvent::Log(
                                        now,
                                        LogMessage::OsmoseurValveOpenFailed,
                                        LogLevel::Error,
                                    ),
                                ),
                            );
                            self.osmoseur_pump.poisoned = Some(
                                HardwareError("osmosis valve never confirmed opening"),
                            );
                            self.add_osmosed_water_task = None;
                            proof {
                                assert(acts@ =~= seq![
                                    Action::Ui(
                                        GuiEvent::Log(
                                            now,
                                            LogMessage::OsmoseurValveOpenFailed,
                                            LogLevel::Error,
                                        ),
                                    ),
                                ]);
                            }
                            return acts;
                        }
                        acts.push(
                            Action::Ui(
                                GuiEvent::Log(now, LogMessage::OsmoseurValveWaitOpen, LogLevel::Info),
                            ),
                        );
                        proof {
                            assert(acts@ =~= seq![
                                Action::Ui(
                                    GuiEvent::Log(
                                        now,
                                        LogMessage::OsmoseurValveWaitOpen,
                                        LogLevel::Info,
                                    ),
                                ),
                            ]);
                        }
                    },
                }
            },
            AddOsmoseurWaterStatus::WaitDuration => {
                let begin = match task.begin {
                    Some(b) => b,
                    None => 0,
                };
                if now >= begin && now - begin >= task.duration {
                    acts.push(Action::Send(SerialCommand::S0 { on: false }));
                    acts.push(
                        Action::Ui(
                            GuiEvent::Log(now, LogMessage::OsmoseurValveWaitClose, LogLevel::Info),
                        ),
                    );
                    task.status = AddOsmoseurWaterStatus::WaitClose;
                    proof {
                        assert(acts@ =~= seq![
                            Action::Send(SerialCommand::S0 { on: false }),
                            Action::Ui(
                                GuiEvent::Log(
                                    now,
                                    LogMessage::OsmoseurValveWaitClose,
                                    LogLevel::Info,
                                ),
                            ),
                        ]);
                    }
                }
            },
            AddOsmoseurWaterStatus::WaitClose => {
                let still_open = match self.osmoseur_pump.opened {
                    Some(true) => true,
                    _ => false,
                };
                if !still_open {
                    acts.push(
                        Action::Ui(
                            GuiEvent::Log(now, LogMessage::OsmoseurValveClosed, LogLevel::Info),
                        ),
                    );
                    match task.channel {
                        Channel::Tds => self.tds_monitor.resume(),
                        Channel::Ph => self.ph_monitor.resume(),
                    }
                    self.osmoseur_pump.locked = false;
                    self.add_osmosed_water_task = None;
                    proof {
                        assert(acts@ =~= seq![
                            Action::Ui(
                                GuiEvent::Log(now, LogMessage::OsmoseurValveClosed, LogLevel::Info),
                            ),
                        ]);
                    }
                    return acts;
                }
            },
        }
        self.add_osmosed_water_task = Some(task);
        acts
    }

    /// The periodic task tick: step the in-flight pulse task, if any.
    pub fn task_tick(&mut self, now: u64) -> (acts: Vec<Action>)
        requires
            old(self).wf(),
        ensures
            final(self).wf(),
            old(self).add_osmosed_water_task is None ==> *final(self) == *old(self) && acts@
                == Seq::<Action>::empty(),
            old(self).add_osmosed_water_task matches Some(t) ==> task_step_post(
                *old(self),
                *final(self),
                acts@,
                t,
                now,
            ),
    {
        let task = match self.add_osmosed_water_task.take() {
            Some(t) => t,
            None => {
                return Vec::new();
            },
        };
        self.update_add_osmosed_water_task(task, now)
    }
}

} // verus!
