//! Bring-up core of a bare-metal kernel: the one-time boot sequencing that
//! takes the machine from bootloader hand-off to a usable state, and the
//! low-level text console used to observe that sequence.

pub mod boot;
pub mod conf;
pub mod harness;
pub mod registry;
pub mod text;
pub mod writers;

pub use boot::{alloc_error_handler, BootError, BootSequencer, BootStage, BuildType};
pub use conf::{Config, ConfigType};
pub use harness::{test_panic_handler, test_runner, NamedCheck, QemuExitCode, SerialReport, Testable};
pub use registry::{ChannelId, ConsoleRegistry};
pub use writers::{Color, ColorCode, Grid, ScreenChar, Writer, BUFFER_HEIGHT, BUFFER_WIDTH};
