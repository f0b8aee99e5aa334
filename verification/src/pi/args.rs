//! The command line of the emulator, sniffer and controller, as values. Paths
//! are kept as the strings given on the command line.
use vstd::prelude::*;

verus! {

/// The highest GPIB bus address.
pub const MAX_BUS_ADDRESS: u8 = 30;

pub struct Args {
    pub verbose: bool,
    pub trace: bool,
    pub command: Command,
}

pub enum Command {
    Emulator(EmulatorArgs),
    Sniffer(SnifferArgs),
    Controller(ControllerCommand),
}

pub struct EmulatorArgs {
    pub hdd_1_image: Option<String>,
    pub floppy_drive_1_image: Option<String>,
    pub portable_floppy_image: Option<String>,
    pub hdd_2_image: Option<String>,
    pub floppy_drive_2_image: Option<String>,
}

pub struct SnifferArgs {
    pub output_path: String,
    pub size: usize,
}

pub enum ControllerCommand {
    Status { address: u8 },
    Format { validate: bool, address: u8 },
    Write { from_path: String, to_address: u8 },
    Read { from_address: u8, to_path: String },
}

/// Whether a value is a GPIB bus address: 0 to 30.
pub fn is_bus_address(value: u8) -> (ok: bool)
    ensures
        ok == (value <= 30),
{
    value <= MAX_BUS_ADDRESS
}

/// The devices that forward what they receive to a local port, with their bus
/// addresses: the default printer, the HP printer and the plotter.
pub fn proxy_devices() -> (devices: [(u8, u16); 3])
    ensures
        devices@ == seq![(21u8, 49274u16), (25u8, 49275u16), (20u8, 49276u16)],
{
    let devices = [(21u8, 49274u16), (25u8, 49275u16), (20u8, 49276u16)];
    assert(devices@ =~= seq![(21u8, 49274u16), (25u8, 49275u16), (20u8, 49276u16)]);
    devices
}

/// The bus address of each disk slot, in the order of the options.
pub open spec fn slot_addresses() -> Seq<u8> {
    seq![4u8, 5, 6, 12, 13]
}

/// The images given among the first `n` slots, each with the bus address of
/// its slot, in slot order.
pub open spec fn images_of(slots: Seq<Option<Seq<char>>>, n: nat) -> Seq<(u8, Seq<char>)>
    decreases n,
{
    if n == 0 {
        Seq::empty()
    } else {
        let prev = images_of(slots, (n - 1) as nat);
        match slots[n - 1] {
            Some(path) => prev.push((slot_addresses()[n - 1], path)),
            None => prev,
        }
    }
}

impl EmulatorArgs {
    /// The image options in slot order.
    pub open spec fn slots(&self) -> Seq<Option<Seq<char>>> {
        seq![
            opt_view(self.hdd_1_image),
            opt_view(self.floppy_drive_1_image),
            opt_view(self.portable_floppy_image),
            opt_view(self.hdd_2_image),
            opt_view(self.floppy_drive_2_image),
        ]
    }

    /// The disks to create: each image given, with the bus address of its
    /// slot (first HDD 4, first floppy drive 5, portable floppy 6, second HDD
    /// 12, second floppy drive 13), in that order.
    pub fn disk_images(&self) -> (images: Vec<(u8, String)>)
        ensures
            images@.len() == images_of(self.slots(), 5).len(),
            forall|i: int|
                0 <= i < images@.len() ==> (#[trigger] images@[i]).0 == images_of(self.slots(), 5)[i].0
                    && images@[i].1@ == images_of(self.slots(), 5)[i].1,
    {
        let slots = [
            &self.hdd_1_image,
            &self.floppy_drive_1_image,
            &self.portable_floppy_image,
            &self.hdd_2_image,
            &self.floppy_drive_2_image,
        ];
        let addresses: [u8; 5] = [4, 5, 6, 12, 13];
        let ghost all = self.slots();
        assert(addresses@ =~= slot_addresses());
        let mut images: Vec<(u8, String)> = Vec::new();
        for i in 0..5
            invariant
                all == self.slots(),
                addresses@ == slot_addresses(),
                forall|k: int| 0 <= k < 5 ==> opt_view(*#[trigger] slots@[k]) == all[k],
                images@.len() == images_of(all, i as nat).len(),
                forall|j: int|
                    0 <= j < images@.len() ==> (#[trigger] images@[j]).0 == images_of(all, i as nat)[j].0
                        && images@[j].1@ == images_of(all, i as nat)[j].1,
        {
            assert(opt_view(*slots@[i as int]) == all[i as int]);
            match slots[i] {
                Some(path) => {
                    images.push((addresses[i], path.clone()));
                },
                None => {},
            }
        }
        images
    }
}

/// The characters of an optional string.
pub open spec fn opt_view(s: Option<String>) -> Option<Seq<char>> {
    match s {
        Some(s) => Some(s@),
        None => None,
    }
}

impl ControllerCommand {
    /// The bus address of the disk that the command is for.
    pub fn address(&self) -> (a: u8)
        ensures
            a == match self {
                ControllerCommand::Status { address } => *address,
                ControllerCommand::Format { address, .. } => *address,
                ControllerCommand::Write { to_address, .. } => *to_address,
                ControllerCommand::Read { from_address, .. } => *from_address,
            },
    {
        match self {
            ControllerCommand::Status { address } => *address,
            ControllerCommand::Format { address, .. } => *address,
            ControllerCommand::Write { to_address, .. } => *to_address,
            ControllerCommand::Read { from_address, .. } => *from_address,
        }
    }
}

/// Each disk image is created at its slot's fixed bus address: the first HDD
/// at 4, the first floppy drive at 5, the portable floppy at 6, the second
/// HDD at 12, the second floppy drive at 13. Every image given appears once,
/// no other does, and they come in increasing address order.
pub proof fn lemma_disk_image_addresses(a: EmulatorArgs)
    ensures
        ({
            let images = images_of(a.slots(), 5);
            &&& forall|i: int|
                0 <= i < images.len() ==> {
                    ||| (#[trigger] images[i]).0 == 4 && opt_view(a.hdd_1_image) == Some(images[i].1)
                    ||| images[i].0 == 5 && opt_view(a.floppy_drive_1_image) == Some(images[i].1)
                    ||| images[i].0 == 6 && opt_view(a.portable_floppy_image) == Some(images[i].1)
                    ||| images[i].0 == 12 && opt_view(a.hdd_2_image) == Some(images[i].1)
                    ||| images[i].0 == 13 && opt_view(a.floppy_drive_2_image) == Some(images[i].1)
                }
            &&& forall|i: int, j: int| 0 <= i < j < images.len() ==> (#[trigger] images[i]).0 < (#[trigger] images[j]).0
            &&& images.len() == (if a.hdd_1_image is Some { 1int } else { 0 }) + (if a.floppy_drive_1_image is Some {
                1int
            } else {
                0
            }) + (if a.portable_floppy_image is Some { 1int } else { 0 }) + (if a.hdd_2_image is Some {
                1int
            } else {
                0
            }) + (if a.floppy_drive_2_image is Some { 1int } else { 0 })
        }),
{
    let slots = a.slots();
    reveal_with_fuel(images_of, 6);
    assert(slot_addresses()[0] == 4 && slot_addresses()[1] == 5 && slot_addresses()[2] == 6 && slot_addresses()[3]
        == 12 && slot_addresses()[4] == 13);
}

} // verus!
