//! Bringing up the Bluetooth controller.

use std::path::PathBuf;
use vstd::prelude::*;

verus! {

/// A controller on the bus.
#[derive(Clone, Copy, Debug, PartialEq, Eq, Structural)]
pub struct UsbDevice {
    pub vendor_id: u16,
    pub product_id: u16,
}

/// A service that the computer is for.
#[derive(Clone, Copy, Debug, PartialEq, Eq, Structural)]
pub enum MajorServiceClass {
    Audio,
    Rendering,
}

/// What the computer looks like to other devices.
#[derive(Clone, Copy, Debug, PartialEq, Eq, Structural)]
pub enum DeviceClass {
    WearableHeadset,
}

/// A step in bringing up the controller.
#[derive(Debug, PartialEq, Eq)]
pub enum SetupStep {
    /// Take control of the controller with this place on the bus.
    Claim(usize),
    ReadAddress,
    SetSimplePairingSupport(bool),
    WriteLocalName(&'static str),
    WriteClassOfDevice { services: Vec<MajorServiceClass>, class: DeviceClass },
}

/// Whether a controller is the one that was asked for; any will do if none was.
pub open spec fn is_wanted(adapter: Option<(u16, u16)>, device: UsbDevice) -> bool {
    match adapter {
        Some((vendor, product)) => device.vendor_id == vendor && device.product_id == product,
        None => true,
    }
}

fn wants(adapter: Option<(u16, u16)>, device: UsbDevice) -> (b: bool)
    ensures
        b == is_wanted(adapter, device),
{
    match adapter {
        Some((vendor, product)) => device.vendor_id == vendor && device.product_id == product,
        None => true,
    }
}

/// Whether `n` is the place of the first controller that will do.
pub open spec fn is_first_wanted(
    adapter: Option<(u16, u16)>,
    found: Seq<UsbDevice>,
    n: int,
) -> bool {
    &&& 0 <= n < found.len()
    &&& is_wanted(adapter, found[n])
    &&& forall|i: int| 0 <= i < n ==> !is_wanted(adapter, #[trigger] found[i])
}

/// Whether no controller will do.
pub open spec fn none_is_wanted(adapter: Option<(u16, u16)>, found: Seq<UsbDevice>) -> bool {
    forall|i: int| 0 <= i < found.len() ==> !is_wanted(adapter, #[trigger] found[i])
}

/// Whether the steps, in this order, bring up the controller at a place on the bus.
pub open spec fn brings_up(steps: Seq<SetupStep>, n: int) -> bool {
    &&& steps.len() == 5
    &&& steps[0] matches SetupStep::Claim(place) && place == n
    &&& steps[1] is ReadAddress
    &&& steps[2] == SetupStep::SetSimplePairingSupport(true)
    &&& steps[3] == SetupStep::WriteLocalName("bluefang")
    &&& steps[4] matches SetupStep::WriteClassOfDevice { services, class } && services@ == seq![
        MajorServiceClass::Audio,
        MajorServiceClass::Rendering,
    ] && class is WearableHeadset
}

/// The steps that bring up the first controller that will do, among those found on the bus.
pub fn initialize_hci(adapter: Option<(u16, u16)>, found: &[UsbDevice]) -> (r: Result<
    Vec<SetupStep>,
    String,
>)
    ensures
        r is Err ==> none_is_wanted(adapter, found@),
        match r {
            Ok(steps) => exists|n: int|
                #[trigger] is_first_wanted(adapter, found@, n) && brings_up(steps@, n),
            Err(error) => {
                &&& error@ == "No compatible USB controller found"@
                &&& forall|i: int|
                    0 <= i < found.len() ==> !is_wanted(adapter, #[trigger] found@[i])
            },
        },
{
    let mut n: usize = 0;
    while n < found.len()
        invariant
            n <= found.len(),
            forall|i: int| 0 <= i < n ==> !is_wanted(adapter, #[trigger] found@[i]),
        decreases found.len() - n,
    {
        if wants(adapter, found[n]) {
            let steps = vec![
                SetupStep::Claim(n),
                SetupStep::ReadAddress,
                SetupStep::SetSimplePairingSupport(true),
                SetupStep::WriteLocalName("bluefang"),
                SetupStep::WriteClassOfDevice {
                    services: vec![MajorServiceClass::Audio, MajorServiceClass::Rendering],
                    class: DeviceClass::WearableHeadset,
                },
            ];
            assert(is_first_wanted(adapter, found@, n as int));
            assert(brings_up(steps@, n as int));
            return Ok(steps);
        }
        n = n + 1;
    }
    Err("No compatible USB controller found".to_owned())
}

/// How far bringing up the controller has come.
#[derive(Debug, PartialEq, Eq)]
pub enum SetupProgress {
    /// The step with this place in the row is to be taken.
    Take(usize),
    /// The controller is up.
    Up,
    /// A step failed, and no further one is taken.
    Failed(String),
}

/// What follows a step, in a row of so many.
pub open spec fn progress_after(
    count: usize,
    taken: usize,
    result: Result<(), String>,
) -> SetupProgress {
    match result {
        Ok(()) => if taken + 1 < count {
            SetupProgress::Take((taken + 1) as usize)
        } else {
            SetupProgress::Up
        },
        Err(error) => SetupProgress::Failed(error),
    }
}

/// Takes what came of a step: the next one is taken only if it succeeded.
pub fn setup_progress(
    steps: &[SetupStep],
    taken: usize,
    result: Result<(), String>,
) -> (progress: SetupProgress)
    requires
        taken < steps.len(),
    ensures
        progress == progress_after(steps@.len() as usize, taken, result),
{
    match result {
        Ok(()) => if taken + 1 < steps.len() {
            SetupProgress::Take(taken + 1)
        } else {
            SetupProgress::Up
        },
        Err(error) => SetupProgress::Failed(error),
    }
}

/// How far a row of so many steps has come after the first of them brought these results.
pub open spec fn progress_after_all(
    count: usize,
    results: Seq<Result<(), String>>,
) -> SetupProgress {
    if results.len() == 0 {
        SetupProgress::Take(0)
    } else {
        progress_after(count, (results.len() - 1) as usize, results.last())
    }
}

/// Whether each of the results is that of a step that was to be taken.
pub open spec fn each_was_due(count: usize, results: Seq<Result<(), String>>) -> bool {
    forall|i: int|
        0 <= i < results.len() ==> #[trigger] progress_after_all(count, results.take(i))
            == SetupProgress::Take(i as usize)
}

/// The controller is up only once every step was taken and succeeded, and the first step that
/// fails is the last, and tells why.
pub proof fn controller_is_up_after_every_step(
    count: usize,
    results: Seq<Result<(), String>>,
)
    requires
        0 < count,
        each_was_due(count, results),
    ensures
        results.len() <= count,
        forall|i: int| 0 <= i < results.len() - 1 ==> (#[trigger] results[i]) is Ok,
        progress_after_all(count, results) is Up <==> results.len() == count && results.last() is Ok,
        progress_after_all(count, results) matches SetupProgress::Failed(error) ==> results.len() > 0
            && results.last() == Err::<(), String>(error),
        results.len() > 0 && results.last() is Err ==> progress_after_all(count, results) is Failed,
{
    assert forall|i: int| 0 <= i < results.len() - 1 implies (#[trigger] results[i]) is Ok by {
        assert(progress_after_all(count, results.take(i + 1)) == SetupProgress::Take(
            (i + 1) as usize,
        ));
        assert(results.take(i + 1).last() == results[i]);
    }
    if results.len() > count {
        assert(progress_after_all(count, results.take(count as int)) == SetupProgress::Take(count));
    }
}

/// `std::path::PathBuf`, a place on disk that is kept and handed out unread.
#[verifier::external_type_specification]
#[verifier::external_body]
pub struct ExPathBuf(PathBuf);

/// Where the firmware of a controller comes from.
#[derive(Debug, PartialEq, Eq)]
pub struct DownloadFileProvider {
    pub base_url: String,
    pub cache: PathBuf,
}

/// How a file is come by.
#[derive(Debug, PartialEq, Eq)]
pub enum FileAccess {
    /// It is read from the cache.
    ReadCached,
    /// It is downloaded, and put into the cache.
    Download { url: String },
}

impl DownloadFileProvider {
    /// Decides how a file is come by: one that is not in the cache is downloaded.
    pub fn get_file(&self, name: &str, cached: bool) -> (access: FileAccess)
        ensures
            access is ReadCached <==> cached,
            access matches FileAccess::Download { url } ==> url@ == self.base_url@ + "/"@ + name@,
    {
        if cached {
            FileAccess::ReadCached
        } else {
            FileAccess::Download { url: self.base_url.clone().concat("/").concat(name) }
        }
    }
}

/// What came of getting a file.
#[derive(Debug, PartialEq, Eq)]
pub struct FetchedFile {
    pub bytes: Option<Vec<u8>>,
    /// Whether the bytes are to be put into the cache.
    pub store: bool,
}

impl FileAccess {
    /// Takes what reading or downloading a file brought: what was downloaded is put into the
    /// cache, and a file that could not be had is none.
    pub fn finish(&self, bytes: Option<Vec<u8>>) -> (file: FetchedFile)
        ensures
            file.bytes == bytes,
            file.store == (self is Download && bytes is Some),
    {
        let store = match self {
            FileAccess::Download { .. } => bytes.is_some(),
            FileAccess::ReadCached => false,
        };
        FetchedFile { bytes, store }
    }
}

}
