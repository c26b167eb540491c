//! Decisions of the polling i8042 (PS/2 controller) driver: status bits,
//! bounded waits, the controller set-up script and the routing of bytes
//! read from the data port to the keyboard or the mouse.
use crate::mouse::PacketAssembler;
use vstd::prelude::*;

verus! {

/// Data port of the controller.
pub const DATA_PORT: u16 = 0x60;
/// Status register (read) and command register (write) of the controller.
pub const STATUS_PORT: u16 = 0x64;
/// The output buffer holds a byte for the host.
pub const STATUS_OUTPUT_FULL: u8 = 0x01;
/// The input buffer still holds a byte for the controller.
pub const STATUS_INPUT_FULL: u8 = 0x02;
/// The byte in the output buffer comes from the auxiliary (mouse) port.
pub const STATUS_AUX_DATA: u8 = 0x20;
/// Reply of a PS/2 device that accepted a command.
pub const DEVICE_ACK: u8 = 0xfa;
/// Data port of the first serial port.
pub const SERIAL_COM1_DATA: u16 = 0x3f8;
/// Line status register of the first serial port.
pub const SERIAL_COM1_LINE_STATUS: u16 = 0x3fd;
/// The serial receiver holds a byte.
pub const SERIAL_LINE_STATUS_DATA_READY: u8 = 0x01;
/// Number of status polls before a write to the controller gives up.
pub const WRITE_BUDGET: usize = 100_000;
/// Number of status polls before a read from the controller gives up.
pub const READ_BUDGET: usize = 100_000;

pub open spec fn bit_set(value: u8, mask: u8) -> bool {
    value & mask != 0
}

/// The controller holds a byte for the host.
pub fn output_full(status: u8) -> (r: bool)
    ensures
        r == bit_set(status, STATUS_OUTPUT_FULL),
{
    status & STATUS_OUTPUT_FULL != 0
}

/// The controller accepts a new command or data byte.
pub fn input_clear(status: u8) -> (r: bool)
    ensures
        r == !bit_set(status, STATUS_INPUT_FULL),
{
    status & STATUS_INPUT_FULL == 0
}

/// The pending output byte came from the mouse port.
pub fn from_aux_port(status: u8) -> (r: bool)
    ensures
        r == bit_set(status, STATUS_AUX_DATA),
{
    status & STATUS_AUX_DATA != 0
}

/// A keyboard byte waits in the output buffer.
pub fn keyboard_byte_pending(status: u8) -> (r: bool)
    ensures
        r == (bit_set(status, STATUS_OUTPUT_FULL) && !bit_set(status, STATUS_AUX_DATA)),
{
    status & STATUS_OUTPUT_FULL != 0 && status & STATUS_AUX_DATA == 0
}

/// A mouse byte waits in the output buffer.
pub fn mouse_byte_pending(status: u8) -> (r: bool)
    ensures
        r == (bit_set(status, STATUS_OUTPUT_FULL) && bit_set(status, STATUS_AUX_DATA)),
{
    status & STATUS_OUTPUT_FULL != 0 && status & STATUS_AUX_DATA != 0
}

/// The serial line status reports a received byte.
pub fn serial_data_ready(line_status: u8) -> (r: bool)
    ensures
        r == bit_set(line_status, SERIAL_LINE_STATUS_DATA_READY),
{
    line_status & SERIAL_LINE_STATUS_DATA_READY != 0
}

/// What a bounded wait on the status register waits for.
#[derive(Clone, Copy, Debug, PartialEq, Eq, Structural)]
pub enum WaitCondition {
    /// The input buffer is empty, so a byte may be written.
    InputClear,
    /// The output buffer is full, so a byte may be read.
    OutputFull,
}

/// The next move of a bounded wait after one poll of the status register.
#[derive(Clone, Copy, Debug, PartialEq, Eq, Structural)]
pub enum WaitStep {
    /// The condition holds.
    Ready,
    /// Poll again; this many polls remain.
    Retry(usize),
    /// The budget is spent without the condition holding.
    TimedOut,
}

pub open spec fn condition_holds(condition: WaitCondition, status: u8) -> bool {
    match condition {
        WaitCondition::InputClear => !bit_set(status, STATUS_INPUT_FULL),
        WaitCondition::OutputFull => bit_set(status, STATUS_OUTPUT_FULL),
    }
}

/// One poll of a wait with `budget` polls left, where `status` is the status
/// register read (none when the read failed).
pub fn wait_step(budget: usize, status: Option<u8>, condition: WaitCondition) -> (r: WaitStep)
    requires
        budget > 0,
    ensures
        r == WaitStep::Ready <==> (status matches Some(s) && condition_holds(condition, s)),
        r == WaitStep::Retry((budget - 1) as usize) <==> (!(status matches Some(s)
            && condition_holds(condition, s)) && budget > 1),
        r == WaitStep::TimedOut <==> (!(status matches Some(s) && condition_holds(condition, s))
            && budget == 1),
{
    if let Some(s) = status {
        let holds = match condition {
            WaitCondition::InputClear => input_clear(s),
            WaitCondition::OutputFull => output_full(s),
        };
        if holds {
            return WaitStep::Ready;
        }
    }
    if budget > 1 {
        WaitStep::Retry(budget - 1)
    } else {
        WaitStep::TimedOut
    }
}

/// A device accepted a command exactly when its reply is the ACK byte.
pub fn is_command_ack(reply: Option<u8>) -> (r: bool)
    ensures
        r == (reply == Some(DEVICE_ACK)),
{
    match reply {
        Some(b) => b == DEVICE_ACK,
        None => false,
    }
}

/// Controller configuration bits: keyboard and mouse interrupts, the two
/// clock-disable bits, and scan code translation.
pub const CONFIG_IRQ1: u8 = 0x01;
pub const CONFIG_IRQ12: u8 = 0x02;
pub const CONFIG_KEYBOARD_CLOCK_OFF: u8 = 0x10;
pub const CONFIG_MOUSE_CLOCK_OFF: u8 = 0x20;
pub const CONFIG_TRANSLATION: u8 = 0x40;

/// The configuration byte to write back: both device clocks on, both
/// interrupts off (the driver polls), translation to set 1 on, every other
/// bit as read.
pub fn controller_config(config: u8) -> (r: u8)
    ensures
        r & (CONFIG_IRQ1 | CONFIG_IRQ12 | CONFIG_KEYBOARD_CLOCK_OFF | CONFIG_MOUSE_CLOCK_OFF) == 0,
        r & CONFIG_TRANSLATION == CONFIG_TRANSLATION,
        r & 0x8c == config & 0x8c,
        r == controller_config_spec(config),
{
    let r = (config & !0x33u8) | 0x40;
    assert(r & 0x33 == 0 && r & 0x40 == 0x40 && r & 0x8c == config & 0x8c) by (bit_vector)
        requires
            r == (config & !0x33u8) | 0x40,
    ;
    assert((0x01u8 | 0x02u8 | 0x10u8 | 0x20u8) == 0x33u8) by (bit_vector);
    r
}

/// One step of the controller set-up script.
#[derive(Clone, Copy, Debug, PartialEq, Eq, Structural)]
pub enum InitAction {
    /// Drain whatever the controller holds for the host.
    FlushOutput,
    /// Write a command byte to the command register.
    WriteCommand(u8),
    /// Read one byte from the data port.
    ReadData,
    /// Write a byte to the data port.
    WriteData(u8),
    /// Send a command to the keyboard and wait for its ACK.
    KeyboardCommand(u8),
    /// Send a command to the mouse and wait for its ACK.
    MouseCommand(u8),
    /// The script is complete.
    Done,
}

/// What came of the last action of the script.
#[derive(Clone, Copy, Debug, PartialEq, Eq, Structural)]
pub enum InitOutcome {
    /// A write or command succeeded (`true`) or failed.
    Written(bool),
    /// A read returned a byte or timed out.
    Read(Option<u8>),
}

pub const CMD_DISABLE_KEYBOARD: u8 = 0xad;
pub const CMD_DISABLE_MOUSE: u8 = 0xa7;
pub const CMD_ENABLE_KEYBOARD: u8 = 0xae;
pub const CMD_ENABLE_MOUSE: u8 = 0xa8;
pub const CMD_READ_CONFIG: u8 = 0x20;
pub const CMD_WRITE_CONFIG: u8 = 0x60;
pub const DEV_ENABLE_REPORTING: u8 = 0xf4;
pub const DEV_SET_DEFAULTS: u8 = 0xf6;

/// The set-up script of the controller.  Stages 0 to 6 always run; the
/// configuration is read only when the read command was accepted and written
/// back only when it was read; the device commands close the script.
pub struct I8042Init {
    started: bool,
    stage: u8,
    config: u8,
}

/// Stage from which the script sends the device commands.
pub open spec fn device_stage() -> u8 {
    10
}

/// The stage at which the script is complete.
pub open spec fn final_stage() -> u8 {
    13
}

impl I8042Init {
    /// An action of the script has been issued.
    pub closed spec fn started(&self) -> bool {
        self.started
    }

    /// The stage of the action issued last.
    pub closed spec fn stage(&self) -> u8 {
        self.stage
    }

    /// The configuration byte read, once read.
    pub closed spec fn config(&self) -> u8 {
        self.config
    }

    pub closed spec fn wf(&self) -> bool {
        self.stage <= final_stage()
    }

    /// The script before its first action.
    pub fn new() -> (r: Self)
        ensures
            r.wf(),
            !r.started(),
    {
        I8042Init { started: false, stage: 0, config: 0 }
    }

    /// The action of the fixed part of the script at `stage`.
    pub open spec fn fixed_action(stage: u8) -> InitAction {
        match stage {
            0 => InitAction::FlushOutput,
            1 => InitAction::WriteCommand(CMD_DISABLE_KEYBOARD),
            2 => InitAction::WriteCommand(CMD_DISABLE_MOUSE),
            3 => InitAction::FlushOutput,
            4 => InitAction::WriteCommand(CMD_ENABLE_KEYBOARD),
            5 => InitAction::WriteCommand(CMD_ENABLE_MOUSE),
            6 => InitAction::WriteCommand(CMD_READ_CONFIG),
            10 => InitAction::KeyboardCommand(DEV_ENABLE_REPORTING),
            11 => InitAction::MouseCommand(DEV_SET_DEFAULTS),
            12 => InitAction::MouseCommand(DEV_ENABLE_REPORTING),
            _ => InitAction::Done,
        }
    }

    /// The stage that follows `stage` given what came of its action: the
    /// configuration is read only after the read command was accepted, and
    /// written back only after it was read.
    pub open spec fn next_stage(stage: u8, outcome: InitOutcome) -> u8 {
        if stage == 6 {
            if outcome == InitOutcome::Written(true) { 7 } else { device_stage() }
        } else if stage == 7 {
            if outcome matches InitOutcome::Read(Some(_)) { 8 } else { device_stage() }
        } else if stage < final_stage() {
            (stage + 1) as u8
        } else {
            final_stage()
        }
    }

    /// The action of `stage`, where `config` is the configuration byte read.
    pub open spec fn stage_action(stage: u8, config: u8) -> InitAction {
        if stage == 7 {
            InitAction::ReadData
        } else if stage == 8 {
            InitAction::WriteCommand(CMD_WRITE_CONFIG)
        } else if stage == 9 {
            InitAction::WriteData(controller_config_spec(config))
        } else {
            Self::fixed_action(stage)
        }
    }

    /// Returns the next action of the script, given what came of the
    /// previous one (ignored for the first).  Failed writes and commands do
    /// not stop the script; only the configuration round trip depends on
    /// them.
    pub fn step(&mut self, outcome: InitOutcome) -> (r: InitAction)
        requires
            old(self).wf(),
        ensures
            final(self).wf(),
            final(self).started(),
            !old(self).started() ==> final(self).stage() == 0 && r == InitAction::FlushOutput,
            old(self).started() ==> final(self).stage() == Self::next_stage(
                old(self).stage(),
                outcome,
            ) && r == Self::stage_action(final(self).stage(), final(self).config()),
            old(self).started() && old(self).stage() == 7 ==> (outcome matches InitOutcome::Read(
                Some(b),
            ) ==> final(self).config() == b),
            !(old(self).started() && old(self).stage() == 7) ==> final(self).config() == old(
                self).config(),
            old(self).started() && old(self).stage() < final_stage() ==> old(self).stage() < final(
                self).stage(),
    {
        if !self.started {
            self.started = true;
            self.stage = 0;
            return InitAction::FlushOutput;
        }
        if self.stage == 7 {
            if let InitOutcome::Read(Some(b)) = outcome {
                self.config = b;
            }
        }
        let next: u8 = if self.stage == 6 {
            if let InitOutcome::Written(true) = outcome {
                7
            } else {
                10
            }
        } else if self.stage == 7 {
            if let InitOutcome::Read(Some(_)) = outcome {
                8
            } else {
                10
            }
        } else if self.stage < 13 {
            self.stage + 1
        } else {
            13
        };
        self.stage = next;
        Self::action_at(next, self.config)
    }

    fn action_at(stage: u8, config: u8) -> (r: InitAction)
        ensures
            r == Self::stage_action(stage, config),
    {
        match stage {
            0 => InitAction::FlushOutput,
            1 => InitAction::WriteCommand(CMD_DISABLE_KEYBOARD),
            2 => InitAction::WriteCommand(CMD_DISABLE_MOUSE),
            3 => InitAction::FlushOutput,
            4 => InitAction::WriteCommand(CMD_ENABLE_KEYBOARD),
            5 => InitAction::WriteCommand(CMD_ENABLE_MOUSE),
            6 => InitAction::WriteCommand(CMD_READ_CONFIG),
            7 => InitAction::ReadData,
            8 => InitAction::WriteCommand(CMD_WRITE_CONFIG),
            9 => InitAction::WriteData(controller_config(config)),
            10 => InitAction::KeyboardCommand(DEV_ENABLE_REPORTING),
            11 => InitAction::MouseCommand(DEV_SET_DEFAULTS),
            12 => InitAction::MouseCommand(DEV_ENABLE_REPORTING),
            _ => InitAction::Done,
        }
    }
}

/// The script always completes: from any stage it reaches the final stage,
/// whose action is `Done`, after at most as many steps as stages remain.
pub proof fn lemma_init_terminates(stage: u8, outcome: InitOutcome)
    requires
        stage < final_stage(),
    ensures
        stage < I8042Init::next_stage(stage, outcome) <= final_stage(),
        I8042Init::stage_action(final_stage(), 0) == InitAction::Done,
{
}

/// The configuration byte that `controller_config` writes for `config`.
pub open spec fn controller_config_spec(config: u8) -> u8 {
    (config & !0x33u8) | 0x40
}

/// Where a byte read from the data port goes.
#[derive(Clone, Copy, Debug, PartialEq, Eq)]
pub enum Route {
    /// Forward the byte to the input service as a keyboard byte.
    Keyboard(u8),
    /// Forward a completed mouse packet to the input service.
    Mouse([u8; 3]),
    /// The byte was kept (or dropped) while a mouse packet builds up.
    Pending,
}

/// Sorts the bytes of the controller into keyboard bytes and mouse packets.
pub struct InputRouter {
    pub mouse: PacketAssembler,
}

impl InputRouter {
    pub open spec fn wf(&self) -> bool {
        self.mouse.wf()
    }

    pub fn new() -> (r: Self)
        ensures
            r.wf(),
            r.mouse.pending() == Seq::<u8>::empty(),
    {
        InputRouter { mouse: PacketAssembler::new() }
    }

    /// Routes `byte`, read while the controller reported `status`.
    pub fn route(&mut self, status: u8, byte: u8) -> (r: Route)
        requires
            old(self).wf(),
        ensures
            final(self).wf(),
            !bit_set(status, STATUS_AUX_DATA) ==> r == Route::Keyboard(byte)
                && final(self).mouse.pending() == old(self).mouse.pending(),
            bit_set(status, STATUS_AUX_DATA) ==> r !is Keyboard && final(self).mouse.pending()
                == PacketAssembler::after_byte(old(self).mouse.pending(), byte) && (r is Mouse
                <==> old(self).mouse.pending().len() == 2),
            bit_set(status, STATUS_AUX_DATA) && old(self).mouse.pending().len() == 2 ==> (
            r matches Route::Mouse(p) && p@ == old(self).mouse.pending().push(byte) && final(
                self).mouse.pending().len() == 0),
            bit_set(status, STATUS_AUX_DATA) && old(self).mouse.pending().len() < 2 ==> r
                == Route::Pending,
            bit_set(status, STATUS_AUX_DATA) && old(self).mouse.pending().len() < 2 ==> final(
                self).mouse.pending() == if old(self).mouse.pending().len() == 0 && byte & 0x08 == 0 {
                old(self).mouse.pending()
            } else {
                old(self).mouse.pending().push(byte)
            },
    {
        if !from_aux_port(status) {
            return Route::Keyboard(byte);
        }
        match self.mouse.push(byte) {
            Some(packet) => Route::Mouse(packet),
            None => Route::Pending,
        }
    }
}

/// The eight-byte message that carries one keyboard byte to the input
/// service; `kind` is the service's tag for raw keyboard input.
pub fn keyboard_message(kind: u8, byte: u8) -> (r: [u8; 8])
    ensures
        r@ == seq![kind, 0u8, 0u8, 0u8, byte, 0u8, 0u8, 0u8],
{
    let r = [kind, 0, 0, 0, byte, 0, 0, 0];
    assert(r@ =~= seq![kind, 0u8, 0u8, 0u8, byte, 0u8, 0u8, 0u8]);
    r
}

/// The eight-byte message that carries one mouse packet to the input
/// service; `kind` is the service's tag for raw mouse packets.
pub fn mouse_message(kind: u8, packet: [u8; 3]) -> (r: [u8; 8])
    ensures
        r@ == seq![kind, 0u8, 0u8, 0u8, packet@[0], packet@[1], packet@[2], 0u8],
{
    let r = [kind, 0, 0, 0, packet[0], packet[1], packet[2], 0];
    assert(r@ =~= seq![kind, 0u8, 0u8, 0u8, packet@[0], packet@[1], packet@[2], 0u8]);
    r
}

/// The link to the input service: its thread identifier, zero while it is
/// unknown.  A failed call drops the link, so that the service is looked up
/// again.
#[derive(Clone, Copy, Debug, PartialEq, Eq, Structural)]
pub struct InputLink {
    pub tid: u64,
}

impl InputLink {
    /// The link as found by a lookup (zero when the service was not found).
    pub fn new(tid: u64) -> (r: Self)
        ensures
            r.tid == tid,
    {
        InputLink { tid }
    }

    /// The service to send to, if known.
    pub fn target(&self) -> (r: Option<u64>)
        ensures
            r == if self.tid == 0 { None } else { Some(self.tid) },
    {
        if self.tid == 0 {
            None
        } else {
            Some(self.tid)
        }
    }

    /// Records the outcome of a call to the service.
    pub fn record_call(&mut self, succeeded: bool)
        ensures
            final(self).tid == if succeeded { old(self).tid } else { 0 },
    {
        if !succeeded {
            self.tid = 0;
        }
    }
}

} // verus!
