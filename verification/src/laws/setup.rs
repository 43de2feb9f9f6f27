//! The controller, its firmware files and the settings, call by call.

use crate::bluetooth;
use crate::bluetooth::{
    initialize_hci, setup_progress, DeviceClass, DownloadFileProvider, FetchedFile, FileAccess,
    MajorServiceClass, SetupProgress, SetupStep, UsbDevice,
};
use crate::config::AppSettings;
use vstd::prelude::*;

verus! {

/// The first controller on the bus that is the one asked for is brought up, or the first of all if
/// none was asked for; there is an error only if there is none, and it says so.
pub proof fn first_wanted_controller_is_claimed(
    adapter: Option<(u16, u16)>,
    found: &[UsbDevice],
    r: Result<Vec<SetupStep>, String>,
)
    requires
        call_ensures(initialize_hci, (adapter, found), r),
    ensures
        match r {
            Ok(steps) => {
                &&& steps@.len() == 5
                &&& steps@[0] matches SetupStep::Claim(n)
                &&& n < found@.len()
                &&& adapter matches Some(wanted) ==> {
                    &&& found@[n as int].vendor_id == wanted.0
                    &&& found@[n as int].product_id == wanted.1
                    &&& forall|i: int|
                        0 <= i < n ==> !((#[trigger] found@[i]).vendor_id == wanted.0
                            && found@[i].product_id == wanted.1)
                }
                &&& adapter is None ==> n == 0
            },
            Err(error) => {
                &&& error@ == "No compatible USB controller found"@
                &&& adapter is None ==> found@.len() == 0
                &&& adapter matches Some(wanted) ==> forall|i: int|
                    0 <= i < found@.len() ==> !((#[trigger] found@[i]).vendor_id == wanted.0
                        && found@[i].product_id == wanted.1)
            },
        },
{
    match r {
        Ok(steps) => {
            assert(exists|n: int|
                #[trigger] bluetooth::is_first_wanted(adapter, found@, n) && bluetooth::brings_up(
                    steps@,
                    n,
                ));
            let n = choose|n: int|
                #[trigger] bluetooth::is_first_wanted(adapter, found@, n) && bluetooth::brings_up(
                    steps@,
                    n,
                );
            if adapter is None && n > 0 {
                assert(!bluetooth::is_wanted(adapter, found@[0]));
            }
            assert(steps@[0] == SetupStep::Claim(n as usize));
        },
        Err(_) => {
            assert(bluetooth::none_is_wanted(adapter, found@));
            if found@.len() > 0 {
                assert(!bluetooth::is_wanted(adapter, found@[0]));
            }
        },
    }
}

/// Once claimed, the controller tells its address, learns simple pairing, takes the name of the
/// player and shows itself as a headset that renders audio.
pub proof fn controller_shows_itself_as_a_headset(
    adapter: Option<(u16, u16)>,
    found: &[UsbDevice],
    steps: Vec<SetupStep>,
)
    requires
        call_ensures(initialize_hci, (adapter, found), Ok(steps)),
    ensures
        steps@[1] is ReadAddress,
        steps@[2] == SetupStep::SetSimplePairingSupport(true),
        steps@[3] == SetupStep::WriteLocalName("bluefang"),
        steps@[4] matches SetupStep::WriteClassOfDevice { services, class } && class
            == DeviceClass::WearableHeadset && services@ == seq![
            MajorServiceClass::Audio,
            MajorServiceClass::Rendering,
        ],
{
}

/// A step that succeeded is followed by the next, and the last by the controller being up; one that
/// failed ends it all, with its error.
pub proof fn each_step_follows_the_one_before(
    steps: &[SetupStep],
    taken: usize,
    result: Result<(), String>,
    progress: SetupProgress,
)
    requires
        taken < steps@.len(),
        steps@.len() <= usize::MAX,
        call_ensures(setup_progress, (steps, taken, result), progress),
    ensures
        match result {
            Ok(()) => if taken == steps@.len() - 1 {
                progress is Up
            } else {
                progress matches SetupProgress::Take(next) && next == taken + 1
            },
            Err(error) => progress == SetupProgress::Failed(error),
        },
{
}

/// A file in the cache is read from there, and any other is downloaded from below the base
/// address, under its name.
pub proof fn files_are_downloaded_once(
    provider: DownloadFileProvider,
    name: &str,
    cached: bool,
    access: FileAccess,
)
    requires
        call_ensures(DownloadFileProvider::get_file, (&provider, name, cached), access),
    ensures
        cached ==> access is ReadCached,
        !cached ==> (access matches FileAccess::Download { url } && url@ == provider.base_url@
            + seq!['/'] + name@),
{
    reveal_strlit("/");
    assert("/"@ =~= seq!['/']);
}

/// What came is handed on as it is, and only what was downloaded is put into the cache.
pub proof fn downloads_are_stored(
    access: FileAccess,
    bytes: Option<Vec<u8>>,
    file: FetchedFile,
)
    requires
        call_ensures(FileAccess::finish, (&access, bytes), file),
    ensures
        file.bytes == bytes,
        file.store <==> !(access is ReadCached) && bytes is Some,
{
}

/// Settings that are stored hold as they are, and are not stored again; without any the defaults
/// hold, and are stored.
pub proof fn stored_settings_hold(
    stored: Option<AppSettings>,
    r: (AppSettings, Option<AppSettings>),
)
    requires
        call_ensures(AppSettings::load, (stored,), r),
    ensures
        stored matches Some(settings) ==> r.0 == settings && r.1 is None,
        stored is None ==> {
            &&& r.1 matches Some(to_store)
            &&& to_store.bluetooth_adapter is None && r.0.bluetooth_adapter is None
            &&& to_store.volume_multiplier == 1065353216 && r.0.volume_multiplier == 1065353216
            &&& !to_store.hci_dump_enabled && !r.0.hci_dump_enabled
            &&& to_store.log_level@ == "info"@ && r.0.log_level@ == "info"@
        },
{
}

/// The defaults: any controller, the full volume, no dump, and a log of what is of note. A copy of
/// settings is the same in everything.
pub proof fn settings_have_defaults(default: AppSettings, s: AppSettings, copy: AppSettings)
    requires
        call_ensures(<AppSettings as Default>::default, (), default),
        call_ensures(<AppSettings as Clone>::clone, (&s,), copy),
    ensures
        default.bluetooth_adapter is None,
        default.volume_multiplier == 1065353216,
        !default.hci_dump_enabled,
        default.log_level@ == "info"@,
        copy.bluetooth_adapter == s.bluetooth_adapter,
        copy.volume_multiplier == s.volume_multiplier,
        copy.hci_dump_enabled == s.hci_dump_enabled,
        copy.log_level == s.log_level,
{
}

}
