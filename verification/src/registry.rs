//! The fixed set of named console channels.  Every channel owns its own
//! cursor and color, and all of them alias the one hardware grid; the
//! registry owns that grid and never hands it out, only per-channel write
//! operations.
//!
//! In the kernel each channel is guarded by its own spin lock, never held
//! across a window in which an interrupt could re-enter the same channel;
//! what is modeled here is the state a channel owns under its lock.  Two
//! channels may interleave their writes on the shared grid — an accepted
//! visual hazard, not a correctness one, since each write burst targets the
//! bottom row under one channel's lock.

use vstd::prelude::*;
use vstd::string::StringSliceAdditionalSpecFns;

use crate::writers::{
    spec_blank_char, Color, ConsoleView, Grid, ScreenChar, Writer, BUFFER_WIDTH, GRID_CELLS,
};

verus! {

/// The seven named channels.
#[derive(Clone, Copy, Debug, PartialEq, Eq, Structural)]
pub enum ChannelId {
    /// The default status channel (white).
    Status,
    /// Informational output (magenta).
    Info,
    /// The boot banner (brown).
    Logo,
    /// Stage-success reports (green).
    Okay,
    /// Trace output (light blue).
    Trace,
    /// Warnings (light red).
    Warn,
    /// Errors (red).
    Error,
}

/// The position a channel's cursor takes in the registry view.
pub open spec fn channel_index(ch: ChannelId) -> int {
    match ch {
        ChannelId::Status => 0,
        ChannelId::Info => 1,
        ChannelId::Logo => 2,
        ChannelId::Okay => 3,
        ChannelId::Trace => 4,
        ChannelId::Warn => 5,
        ChannelId::Error => 6,
    }
}

/// The fixed packed color of a channel: its own foreground against a black
/// background.
pub open spec fn channel_color(ch: ChannelId) -> u8 {
    match ch {
        ChannelId::Status => 0x0f,
        ChannelId::Info => 0x05,
        ChannelId::Logo => 0x06,
        ChannelId::Okay => 0x02,
        ChannelId::Trace => 0x09,
        ChannelId::Warn => 0x0c,
        ChannelId::Error => 0x04,
    }
}

/// The state of the whole registry: the shared grid's cells and the cursor
/// of each channel, indexed by `channel_index`.
#[verifier::ext_equal]
pub ghost struct RegistryView {
    /// The grid cells in row-major order.
    pub cells: Seq<ScreenChar>,
    /// One cursor per channel.
    pub cursors: Seq<int>,
}

impl RegistryView {
    /// Cell and cursor counts match, and every cursor stays inside the row.
    pub open spec fn wf(self) -> bool {
        &&& self.cells.len() == GRID_CELLS
        &&& self.cursors.len() == 7
        &&& forall|k: int| 0 <= k < 7 ==> 0 <= #[trigger] self.cursors[k] <= BUFFER_WIDTH
    }

    /// The channel state one channel sees.
    pub open spec fn channel(self, ch: ChannelId) -> ConsoleView {
        ConsoleView {
            cells: self.cells,
            cursor: self.cursors[channel_index(ch)],
            color: channel_color(ch),
        }
    }

    /// The effect of writing a byte string through one channel: the grid and
    /// that channel's cursor step; no other channel's cursor moves.
    pub open spec fn step(self, ch: ChannelId, s: Seq<u8>) -> RegistryView {
        let w = self.channel(ch).write_bytes(s);
        RegistryView { cells: w.cells, cursors: self.cursors.update(channel_index(ch), w.cursor) }
    }
}

/// The registry: the one grid and the seven channels, fully constructed
/// before anything can race to reach them.  No channel can be removed or
/// recolored after construction.
pub struct ConsoleRegistry {
    /// The shared hardware grid.
    pub grid: Grid,
    /// The default status channel.
    pub status: Writer,
    /// The informational channel.
    pub info: Writer,
    /// The banner channel.
    pub logo: Writer,
    /// The stage-success channel.
    pub okay: Writer,
    /// The trace channel.
    pub trace: Writer,
    /// The warning channel.
    pub warn: Writer,
    /// The error channel.
    pub error: Writer,
}

impl View for ConsoleRegistry {
    type V = RegistryView;

    open spec fn view(&self) -> RegistryView {
        RegistryView {
            cells: self.grid@,
            cursors: seq![
                self.status.column_position as int,
                self.info.column_position as int,
                self.logo.column_position as int,
                self.okay.column_position as int,
                self.trace.column_position as int,
                self.warn.column_position as int,
                self.error.column_position as int,
            ],
        }
    }
}

impl ConsoleRegistry {
    /// The grid is well formed, every cursor stays inside the row, and every
    /// channel keeps its fixed color.
    pub open spec fn wf(self) -> bool {
        &&& self.grid.wf()
        &&& self.status.wf() && self.status.color_code.0 == channel_color(ChannelId::Status)
        &&& self.info.wf() && self.info.color_code.0 == channel_color(ChannelId::Info)
        &&& self.logo.wf() && self.logo.color_code.0 == channel_color(ChannelId::Logo)
        &&& self.okay.wf() && self.okay.color_code.0 == channel_color(ChannelId::Okay)
        &&& self.trace.wf() && self.trace.color_code.0 == channel_color(ChannelId::Trace)
        &&& self.warn.wf() && self.warn.color_code.0 == channel_color(ChannelId::Warn)
        &&& self.error.wf() && self.error.color_code.0 == channel_color(ChannelId::Error)
    }

    /// Builds the registry: a blank grid and the seven channels with their
    /// fixed colors, each starting at column 0.
    pub fn new() -> (r: ConsoleRegistry)
        ensures
            r.wf(),
            r@.wf(),
            forall|i: int| 0 <= i < GRID_CELLS ==> r@.cells[i] == spec_blank_char(0),
            forall|k: int| 0 <= k < 7 ==> #[trigger] r@.cursors[k] == 0,
    {
        let r = ConsoleRegistry {
            grid: Grid::new(),
            status: Writer::new(Color::White, Color::Black),
            info: Writer::new(Color::Magenta, Color::Black),
            logo: Writer::new(Color::Brown, Color::Black),
            okay: Writer::new(Color::Green, Color::Black),
            trace: Writer::new(Color::LightBlue, Color::Black),
            warn: Writer::new(Color::LightRed, Color::Black),
            error: Writer::new(Color::Red, Color::Black),
        };
        proof {
            assert((0u8 << 4) | 15u8 == 0x0fu8) by (bit_vector);
            assert((0u8 << 4) | 5u8 == 0x05u8) by (bit_vector);
            assert((0u8 << 4) | 6u8 == 0x06u8) by (bit_vector);
            assert((0u8 << 4) | 2u8 == 0x02u8) by (bit_vector);
            assert((0u8 << 4) | 9u8 == 0x09u8) by (bit_vector);
            assert((0u8 << 4) | 12u8 == 0x0cu8) by (bit_vector);
            assert((0u8 << 4) | 4u8 == 0x04u8) by (bit_vector);
        }
        r
    }

    /// Writes a byte string through one channel.
    pub fn write_bytes(&mut self, ch: ChannelId, s: &[u8])
        requires
            old(self).wf(),
        ensures
            final(self).wf(),
            final(self)@ == old(self)@.step(ch, s@),
    {
        match ch {
            ChannelId::Status => self.status.write_string(&mut self.grid, s),
            ChannelId::Info => self.info.write_string(&mut self.grid, s),
            ChannelId::Logo => self.logo.write_string(&mut self.grid, s),
            ChannelId::Okay => self.okay.write_string(&mut self.grid, s),
            ChannelId::Trace => self.trace.write_string(&mut self.grid, s),
            ChannelId::Warn => self.warn.write_string(&mut self.grid, s),
            ChannelId::Error => self.error.write_string(&mut self.grid, s),
        }
        proof {
            assert(self@.cursors =~= old(self)@.step(ch, s@).cursors);
            assert(self@ =~= old(self)@.step(ch, s@));
        }
    }

    /// Writes a text line through one channel, as its bytes.
    pub fn write_text(&mut self, ch: ChannelId, s: &str)
        requires
            old(self).wf(),
        ensures
            final(self).wf(),
            final(self)@ == old(self)@.step(ch, s.spec_bytes()),
    {
        self.write_bytes(ch, s.as_bytes());
    }
}

} // verus!
