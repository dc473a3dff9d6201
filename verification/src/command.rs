//! Serial commands for configuring the device.

use vstd::prelude::*;

pub mod beeper;
pub mod blur_image;
pub mod compensation;
pub mod delta_for_acceptance;
pub mod document_filter;
pub mod edge_sharpen;
pub mod exposure;
pub mod gain;
pub mod gamma_correction;
pub mod histogram_ship;
pub mod histogram_stretch;
pub mod image_rotate;
pub mod image_ship;
pub mod image_snap;
pub mod imaging_style;
pub mod infinity_filter;
pub mod invert_image;
pub mod jpeg_image_quality;
pub mod led;
pub mod manual_trigger;
pub mod mobile_phone;
pub mod noise_reduction;
pub mod pdf;
pub mod pixel_depth;
pub mod pixel_ship;
pub mod protocol;
pub mod qr;
pub mod query;
pub mod serial_trigger;
pub mod software_rev;
pub mod symbologies;
pub mod target_set_point;
pub mod target_white_value;
pub mod trigger;
pub mod update_tries;
pub mod wait_for_trigger;

pub use beeper::Beeper;
pub use blur_image::BlurImage;
pub use compensation::Compensation;
pub use delta_for_acceptance::DeltaForAcceptance;
pub use document_filter::DocumentFilter;
pub use edge_sharpen::EdgeSharpen;
pub use exposure::Exposure;
pub use gain::Gain;
pub use gamma_correction::GammaCorrection;
pub use histogram_ship::HistogramShip;
pub use histogram_stretch::HistogramStretch;
pub use image_rotate::ImageRotate;
pub use image_ship::ImageShip;
pub use image_snap::ImageSnap;
pub use imaging_style::ImagingStyle;
pub use infinity_filter::InfinityFilter;
pub use invert_image::InvertImage;
pub use jpeg_image_quality::JpegImageQuality;
pub use led::LED;
pub use manual_trigger::ManualTriggerMode;
pub use mobile_phone::MobilePhoneReadMode;
pub use noise_reduction::NoiseReduction;
pub use pdf::PDF417;
pub use pixel_depth::PixelDepth;
pub use pixel_ship::PixelShip;
pub use protocol::Protocol;
pub use qr::QRCode;
pub use query::QueryCommand;
pub use serial_trigger::SerialTriggerMode;
pub use serial_trigger::MAX_SERIAL_TRIGGER;
pub use software_rev::SoftwareRevision;
pub use symbologies::AllSymbologies;
pub use target_set_point::TargetSetPoint;
pub use target_white_value::TargetWhiteValue;
pub use trigger::Trigger;
pub use update_tries::UpdateTries;
pub use wait_for_trigger::WaitForTrigger;

verus! {

/// Represents the device's serial commands: exactly one alternative from the
/// command catalog.
#[derive(Clone, Copy, Debug, Eq, PartialEq)]
pub enum SerialCommand {
    AllSymbologies(AllSymbologies),
    ImageShip(ImageShip),
    ImageSnap(ImageSnap),
    ManualTriggerMode(ManualTriggerMode),
    MobilePhoneReadMode(MobilePhoneReadMode),
    PDF417(PDF417),
    QRCode(QRCode),
    SerialTriggerMode(SerialTriggerMode),
    SoftwareRevision(SoftwareRevision),
    Trigger(Trigger),
}

impl SerialCommand {
    /// The ASCII encoding of the active alternative.
    pub open spec fn spec_command(self) -> Seq<char> {
        match self {
            SerialCommand::AllSymbologies(cmd) => cmd.spec_command(),
            SerialCommand::ImageShip(cmd) => cmd.spec_command(),
            SerialCommand::ImageSnap(cmd) => cmd.spec_command(),
            SerialCommand::ManualTriggerMode(cmd) => cmd.spec_command(),
            SerialCommand::MobilePhoneReadMode(cmd) => cmd.spec_command(),
            SerialCommand::PDF417(cmd) => cmd.spec_command(),
            SerialCommand::QRCode(cmd) => cmd.spec_command(),
            SerialCommand::SerialTriggerMode(cmd) => cmd.spec_command(),
            SerialCommand::SoftwareRevision(cmd) => cmd.spec_command(),
            SerialCommand::Trigger(cmd) => cmd.spec_command(),
        }
    }

    /// Creates a new [SerialCommand].
    pub fn new() -> (r: Self)
        ensures
            r == SerialCommand::AllSymbologies(AllSymbologies::Off),
    {
        Self::AllSymbologies(AllSymbologies::new())
    }

    /// Gets the ASCII-encoded [SerialCommand].
    pub fn command(&self) -> (r: String)
        ensures
            r@ == self.spec_command(),
    {
        match self {
            Self::AllSymbologies(cmd) => String::from_str(cmd.command()),
            Self::ImageShip(cmd) => cmd.command(),
            Self::ImageSnap(cmd) => cmd.command(),
            Self::ManualTriggerMode(cmd) => String::from_str(cmd.command()),
            Self::MobilePhoneReadMode(cmd) => String::from_str(cmd.command()),
            Self::PDF417(cmd) => String::from_str(cmd.command()),
            Self::QRCode(cmd) => String::from_str(cmd.command()),
            Self::SerialTriggerMode(cmd) => cmd.command(),
            Self::SoftwareRevision(cmd) => String::from_str(cmd.command()),
            Self::Trigger(cmd) => String::from_str(cmd.command()),
        }
    }
}

impl Default for SerialCommand {
    fn default() -> (r: Self)
        ensures
            r == SerialCommand::AllSymbologies(AllSymbologies::Off),
    {
        Self::new()
    }
}

/// Represents one full outgoing serial command line: the chosen alternative,
/// an optional trailing query modifier, and the terminating period.
#[derive(Clone, Copy, Debug, Eq, PartialEq)]
pub struct Command {
    /// The active command alternative.
    pub serial: SerialCommand,
    /// The optional trailing query modifier.
    pub query: Option<QueryCommand>,
}

impl Command {
    /// The full ASCII line: alternative, query modifier if any, and a final
    /// `.` terminator.
    pub open spec fn spec_command(self) -> Seq<char> {
        self.serial.spec_command() + (match self.query {
            Some(q) => q.spec_command(),
            None => Seq::<char>::empty(),
        }) + "."@
    }

    /// Creates a new [Command].
    pub fn new() -> (r: Self)
        ensures
            r == (Command {
                serial: SerialCommand::AllSymbologies(AllSymbologies::Off),
                query: None::<QueryCommand>,
            }),
    {
        Self { serial: SerialCommand::new(), query: None }
    }

    /// Builder: returns a copy with the command alternative replaced.
    pub fn with_serial(self, serial: SerialCommand) -> (r: Self)
        ensures
            r == (Command { serial, ..self }),
    {
        Self { serial, ..self }
    }

    /// Builder: returns a copy with the query modifier set.
    pub fn with_query(self, query: QueryCommand) -> (r: Self)
        ensures
            r == (Command { query: Some(query), ..self }),
    {
        Self { query: Some(query), ..self }
    }

    /// Gets the fully rendered ASCII command line.
    pub fn command(&self) -> (r: String)
        ensures
            r@ == self.spec_command(),
    {
        let ghost q_frag = match self.query {
            Some(q) => q.spec_command(),
            None => Seq::<char>::empty(),
        };
        let mut out = self.serial.command();
        let q = match &self.query {
            Some(q) => String::from_str(q.command()),
            None => String::new(),
        };
        proof {
            assert(q@ == q_frag);
        }
        out.append(q.as_str());
        out.append(".");
        out
    }
}

impl Default for Command {
    fn default() -> (r: Self)
        ensures
            r == (Command {
                serial: SerialCommand::AllSymbologies(AllSymbologies::Off),
                query: None::<QueryCommand>,
            }),
    {
        Self::new()
    }
}

} // verus!
