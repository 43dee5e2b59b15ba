//! The decisions around a capture endpoint of Windows: whether a thread may have
//! one, how devices are listed, and how one is selected.

use crate::audio::{opt_text, AudioError, DeviceInfo};
use vstd::prelude::*;

verus! {

/// Success, as COM numbers it.
pub const S_OK: i32 = 0;

/// Success too: the thread had entered the same apartment before.
pub const S_FALSE: i32 = 1;

/// The thread is in another apartment already. As a bit pattern, `0x80010106`.
pub const RPC_E_CHANGED_MODE: i32 = -2_147_417_850;

/// What entering the multi-threaded apartment comes to, by COM's answer `hr` and
/// what Windows says of it. `other` is the message for a thread that is in another
/// apartment, and `failed` begins the one for any other failure.
pub open spec fn enters_as(
    hr: i32,
    reason: Seq<char>,
    other: Seq<char>,
    failed: Seq<char>,
    r: Result<(), AudioError>,
) -> bool {
    if hr == S_OK || hr == S_FALSE {
        r is Ok
    } else {
        &&& r matches Err(e)
        &&& e matches AudioError::Windows(message)
        &&& message@ == if hr == RPC_E_CHANGED_MODE {
            other
        } else {
            failed + reason
        }
    }
}

/// Whether the thread that called `CoInitializeEx` with the answer `hr` is in
/// the multi-threaded apartment. An endpoint may be made there only: elsewhere
/// it would be bound to a thread that is not ours. `reason` is what Windows says
/// of `hr`.
pub fn mta_entered(hr: i32, reason: &str) -> (r: Result<(), AudioError>)
    ensures
        enters_as(
            hr,
            reason@,
            "thread is already in a different COM apartment (RPC_E_CHANGED_MODE); Endpoint must be constructed on a dedicated MTA thread"@,
            "CoInitializeEx failed: "@,
            r,
        ),
        r is Ok <==> hr == S_OK || hr == S_FALSE,
        r matches Err(e) ==> {
            &&& e matches AudioError::Windows(message)
            &&& message@ == if hr == RPC_E_CHANGED_MODE {
                "thread is already in a different COM apartment (RPC_E_CHANGED_MODE); Endpoint must be constructed on a dedicated MTA thread"@
            } else {
                "CoInitializeEx failed: "@ + reason@
            }
        },
{
    if hr == RPC_E_CHANGED_MODE {
        return Err(
            AudioError::Windows(
                "thread is already in a different COM apartment (RPC_E_CHANGED_MODE); Endpoint must be constructed on a dedicated MTA thread".to_owned(),
            ),
        );
    }
    if hr != S_OK && hr != S_FALSE {
        return Err(AudioError::Windows("CoInitializeEx failed: ".to_owned().concat(reason)));
    }
    Ok(())
}

/// The same for the audio worker's own thread.
pub fn worker_mta_entered(hr: i32, reason: &str) -> (r: Result<(), AudioError>)
    ensures
        enters_as(
            hr,
            reason@,
            "audio thread is already in a different COM apartment (RPC_E_CHANGED_MODE)"@,
            "CoInitializeEx failed on the audio thread: "@,
            r,
        ),
        r is Ok <==> hr == S_OK || hr == S_FALSE,
        r matches Err(e) ==> {
            &&& e matches AudioError::Windows(message)
            &&& message@ == if hr == RPC_E_CHANGED_MODE {
                "audio thread is already in a different COM apartment (RPC_E_CHANGED_MODE)"@
            } else {
                "CoInitializeEx failed on the audio thread: "@ + reason@
            }
        },
{
    if hr == RPC_E_CHANGED_MODE {
        return Err(
            AudioError::Windows(
                "audio thread is already in a different COM apartment (RPC_E_CHANGED_MODE)".to_owned(),
            ),
        );
    }
    if hr != S_OK && hr != S_FALSE {
        return Err(
            AudioError::Windows(
                "CoInitializeEx failed on the audio thread: ".to_owned().concat(reason),
            ),
        );
    }
    Ok(())
}

/// The UTF-16 code units of a character: one, or a pair of surrogates.
pub open spec fn utf16_units(c: char) -> Seq<u16> {
    if (c as u32) < 0x1_0000 {
        seq![c as u16]
    } else {
        seq![
            (0xD800 + (c as u32 - 0x1_0000) / 0x400) as u16,
            (0xDC00 + (c as u32 - 0x1_0000) % 0x400) as u16,
        ]
    }
}

/// The UTF-16 code units of a string.
pub open spec fn utf16(s: Seq<char>) -> Seq<u16>
    decreases s.len(),
{
    if s.len() == 0 {
        Seq::empty()
    } else {
        utf16(s.drop_last()) + utf16_units(s.last())
    }
}

/// A string as Windows takes it: in UTF-16, with a zero at the end.
pub fn wide(s: &str) -> (r: Vec<u16>)
    ensures
        r@ == utf16(s@).push(0),
{
    let mut units: Vec<u16> = Vec::new();
    let n: usize = s.unicode_len();
    let mut i: usize = 0;
    while i < n
        invariant
            i <= n,
            n == s@.len(),
            units@ == utf16(s@.take(i as int)),
        decreases n - i,
    {
        let c: u32 = s.get_char(i) as u32;
        assert(s@.take(i + 1).drop_last() =~= s@.take(i as int));
        if c < 0x1_0000 {
            units.push(c as u16);
        } else {
            let offset: u32 = c - 0x1_0000;
            units.push((0xD800 + offset / 0x400) as u16);
            units.push((0xDC00 + offset % 0x400) as u16);
        }
        assert(units@ =~= utf16(s@.take(i + 1)));
        i = i + 1;
    }
    assert(s@.take(n as int) =~= s@);
    units.push(0);
    units
}

/// What the id that Windows hands out comes to.
pub open spec fn identifies(
    raw: Option<Result<String, String>>,
    r: Result<String, AudioError>,
) -> bool {
    match raw {
        None => r matches Err(AudioError::Windows(message)) && message@
            == "device returned a null id"@,
        Some(Ok(id)) => r == Ok::<String, AudioError>(id),
        Some(Err(reason)) => r == Err::<String, AudioError>(AudioError::Windows(reason)),
    }
}

/// The id of a device, from what Windows hands out: nothing, or a string that may
/// not be one that can be read.
pub fn device_id(raw: Option<Result<String, String>>) -> (r: Result<String, AudioError>)
    ensures
        identifies(raw, r),
        match raw {
            None => r matches Err(AudioError::Windows(message)) && message@
                == "device returned a null id"@,
            Some(Ok(id)) => r == Ok::<String, AudioError>(id),
            Some(Err(reason)) => r == Err::<String, AudioError>(AudioError::Windows(reason)),
        },
{
    match raw {
        None => Err(AudioError::Windows("device returned a null id".to_owned())),
        Some(Ok(id)) => Ok(id),
        Some(Err(reason)) => Err(AudioError::Windows(reason)),
    }
}

/// The friendly name of a device, from the string that its property holds, if it
/// holds one. A name that is missing or empty is an error.
pub fn friendly_name(property: Option<String>) -> (r: Result<String, AudioError>)
    ensures
        names(property, r),
        match property {
            Some(name) => if name@.len() > 0 {
                r == Ok::<String, AudioError>(name)
            } else {
                nameless(r)
            },
            None => nameless(r),
        },
{
    match property {
        Some(name) => {
            if name.as_str().unicode_len() > 0 {
                return Ok(name);
            }
        },
        None => {},
    }
    Err(AudioError::Windows("device friendly name is missing or not a string".to_owned()))
}

/// What the property that holds a device's name comes to.
pub open spec fn names(property: Option<String>, r: Result<String, AudioError>) -> bool {
    match property {
        Some(name) => if name@.len() > 0 {
            r == Ok::<String, AudioError>(name)
        } else {
            nameless(r)
        },
        None => nameless(r),
    }
}

/// The error of a device without a name.
pub open spec fn nameless(r: Result<String, AudioError>) -> bool {
    &&& r matches Err(e)
    &&& e matches AudioError::Windows(message)
    &&& message@ == "device friendly name is missing or not a string"@
}

/// A device as it was found: its id, and what came of asking for its name.
pub struct FoundDevice {
    pub id: String,
    pub name: Result<String, AudioError>,
}

/// Whether `info` is the entry of a device: by its name, or by its id if it has
/// none, and as the default if it is that.
pub open spec fn lists_as(
    found: FoundDevice,
    default_id: Option<String>,
    info: DeviceInfo,
) -> bool {
    &&& info.id == found.id
    &&& info.name == match found.name {
        Ok(name) => name,
        Err(_) => found.id,
    }
    &&& info.is_default == (default_id matches Some(id) && id@ == found.id@)
}

fn entry(found: FoundDevice, default_id: &Option<String>) -> (r: DeviceInfo)
    ensures
        lists_as(found, *default_id, r),
{
    let is_default = match default_id {
        Some(id) => *id == found.id,
        None => false,
    };
    let name = match found.name {
        Ok(name) => name,
        Err(_) => found.id.clone(),
    };
    DeviceInfo { id: found.id, name, is_default }
}

/// What the devices that were found come to: a list of their entries in order, or
/// the first failure among them.
pub open spec fn lists_in_order(
    default_id: Option<String>,
    found: Seq<Result<FoundDevice, AudioError>>,
    r: Result<Vec<DeviceInfo>, AudioError>,
) -> bool {
    match r {
        Ok(devices) => {
            &&& devices@.len() == found.len()
            &&& forall|i: int|
                0 <= i < found.len() ==> (#[trigger] found[i]) is Ok && lists_as(
                    found[i]->Ok_0,
                    default_id,
                    devices@[i],
                )
        },
        Err(e) => exists|i: int|
            {
                &&& 0 <= i < found.len()
                &&& #[trigger] found[i] == Err::<FoundDevice, AudioError>(e)
                &&& forall|j: int| 0 <= j < i ==> (#[trigger] found[j]) is Ok
            },
    }
}

/// The list of the devices that were found, in order. The first that could not
/// be asked for its id makes the whole list fail.
pub fn list_devices(
    default_id: Option<String>,
    found: Vec<Result<FoundDevice, AudioError>>,
) -> (r: Result<Vec<DeviceInfo>, AudioError>)
    ensures
        lists_in_order(default_id, found@, r),
        r is Ok <==> forall|i: int| 0 <= i < found@.len() ==> (#[trigger] found@[i]) is Ok,
        match r {
            Ok(devices) => {
                &&& devices@.len() == found@.len()
                &&& forall|i: int|
                    0 <= i < found@.len() ==> lists_as(
                        found@[i]->Ok_0,
                        default_id,
                        #[trigger] devices@[i],
                    )
            },
            Err(e) => exists|i: int|
                {
                    &&& 0 <= i < found@.len()
                    &&& #[trigger] found@[i] == Err::<FoundDevice, AudioError>(e)
                    &&& forall|j: int| 0 <= j < i ==> (#[trigger] found@[j]) is Ok
                },
        },
{
    let mut rest = found;
    let mut devices: Vec<DeviceInfo> = Vec::new();
    while rest.len() > 0
        invariant
            devices@.len() + rest@.len() == found@.len(),
            rest@ == found@.skip(devices@.len() as int),
            forall|i: int| 0 <= i < devices@.len() ==> (#[trigger] found@[i]) is Ok,
            forall|i: int|
                0 <= i < devices@.len() ==> lists_as(
                    found@[i]->Ok_0,
                    default_id,
                    #[trigger] devices@[i],
                ),
        decreases rest@.len(),
    {
        assert(rest@[0] == found@[devices@.len() as int]);
        match rest.remove(0) {
            Ok(device) => {
                devices.push(entry(device, &default_id));
                assert(rest@ =~= found@.skip(devices@.len() as int));
            },
            Err(e) => {
                return Err(e);
            },
        }
    }
    Ok(devices)
}

/// A capture endpoint: the device that was chosen, and the live interfaces `D`
/// of the one in use.
pub struct Endpoint<D> {
    /// Nothing means the system default.
    pub selected_id: Option<String>,
    pub live: D,
}

/// `wanted` is the chosen device as Windows is asked for it.
pub open spec fn asks_for(id: Option<Seq<char>>, wanted: Option<Vec<u16>>) -> bool {
    match id {
        Some(id) => wanted matches Some(units) && units@ == utf16(id).push(0),
        None => wanted is None,
    }
}

impl<D> Endpoint<D> {
    /// What an endpoint with the choice `id` becomes once its device has been
    /// looked up with the answer `got`, and how that ends: it has the new
    /// device, or it is as it was.
    pub open spec fn moves_to(
        self,
        id: Option<Seq<char>>,
        got: Result<D, AudioError>,
        post: Self,
        r: Result<(), AudioError>,
    ) -> bool {
        match got {
            Ok(live) => r is Ok && post.live == live && opt_text(post.selected_id) == id,
            Err(e) => r == Err::<(), AudioError>(e) && post == self,
        }
    }

    /// An endpoint that follows the system default.
    pub fn new(live: D) -> (r: Endpoint<D>)
        ensures
            r.selected_id is None,
            r.live == live,
    {
        Endpoint { selected_id: None, live }
    }

    /// Looks the chosen device up again. The interfaces change together, or not
    /// at all; the choice stays.
    pub fn refresh<F: FnOnce(Option<Vec<u16>>) -> Result<D, AudioError>>(
        &mut self,
        resolve: F,
    ) -> (r: Result<(), AudioError>)
        requires
            forall|wanted: Option<Vec<u16>>|
                asks_for(opt_text(old(self).selected_id), wanted) ==> #[trigger] resolve.requires(
                    (wanted,),
                ),
        ensures
            exists|wanted: Option<Vec<u16>>, got: Result<D, AudioError>|
                {
                    &&& asks_for(opt_text(old(self).selected_id), wanted)
                    &&& #[trigger] resolve.ensures((wanted,), got)
                    &&& old(self).moves_to(opt_text(old(self).selected_id), got, *final(self), r)
                },
            final(self).selected_id == old(self).selected_id,
    {
        let wanted = match &self.selected_id {
            Some(id) => Some(wide(id.as_str())),
            None => None,
        };
        let ghost asked = wanted;
        let got = resolve(wanted);
        let ghost answer = got;
        assert(resolve.ensures((asked,), answer));
        match got {
            Ok(live) => {
                self.live = live;
                Ok(())
            },
            Err(e) => Err(e),
        }
    }

    /// Chooses a device, or the system default. A device that can not be had
    /// leaves the endpoint as it was, the choice included: otherwise every later
    /// lookup would go for the device that is not there.
    pub fn select<F: FnOnce(Option<Vec<u16>>) -> Result<D, AudioError>>(
        &mut self,
        id: Option<&str>,
        resolve: F,
    ) -> (r: Result<(), AudioError>)
        requires
            forall|wanted: Option<Vec<u16>>|
                asks_for(opt_text(id), wanted) ==> #[trigger] resolve.requires((wanted,)),
        ensures
            exists|wanted: Option<Vec<u16>>, got: Result<D, AudioError>|
                {
                    &&& asks_for(opt_text(id), wanted)
                    &&& #[trigger] resolve.ensures((wanted,), got)
                    &&& old(self).moves_to(opt_text(id), got, *final(self), r)
                },
    {
        let previous = self.selected_id.take();
        self.selected_id = match id {
            Some(id) => Some(id.to_owned()),
            None => None,
        };
        match self.refresh(resolve) {
            Ok(_) => Ok(()),
            Err(e) => {
                self.selected_id = previous;
                Err(e)
            },
        }
    }
}

/// UTF-16 goes character by character: the units of two strings in a row are the
/// units of the one and then those of the other.
pub proof fn utf16_goes_character_by_character(a: Seq<char>, b: Seq<char>)
    ensures
        utf16(a + b) == utf16(a) + utf16(b),
    decreases b.len(),
{
    if b.len() == 0 {
        assert(a + b =~= a);
        assert(utf16(a) + utf16(b) =~= utf16(a));
    } else {
        utf16_goes_character_by_character(a, b.drop_last());
        assert((a + b).drop_last() =~= a + b.drop_last());
        assert(utf16(a + b) =~= utf16(a) + utf16(b));
    }
}

/// The units of a character give the character back: a single unit is its code,
/// and of two the first is a high surrogate, the second a low one, with ten bits
/// of it each.
pub proof fn utf16_units_give_the_character_back(c: char)
    ensures
        (c as u32) < 0x1_0000 ==> utf16(seq![c]).len() == 1 && utf16(seq![c])[0] == c as u32,
        (c as u32) >= 0x1_0000 ==> {
            &&& utf16(seq![c]).len() == 2
            &&& 0xD800 <= utf16(seq![c])[0] < 0xDC00
            &&& 0xDC00 <= utf16(seq![c])[1] < 0xE000
            &&& 0x1_0000 + (utf16(seq![c])[0] - 0xD800) * 0x400 + (utf16(seq![c])[1] - 0xDC00)
                == c as u32
        },
{
    assert(seq![c].drop_last() =~= Seq::<char>::empty());
    reveal_with_fuel(utf16, 2);
    assert(utf16(seq![c]) =~= utf16_units(c));
}

/// An entry of the list holds the device's own id, its name or else its id, and is
/// the default exactly if it has the default's id.
pub proof fn an_entry_is_the_device_it_stands_for(
    found: FoundDevice,
    default_id: Option<String>,
    info: DeviceInfo,
)
    requires
        lists_as(found, default_id, info),
    ensures
        info.id@ == found.id@,
        found.name matches Ok(name) ==> info.name@ == name@,
        found.name is Err ==> info.name@ == found.id@,
        default_id matches Some(id) ==> (info.is_default <==> id@ == found.id@),
        default_id is None ==> !info.is_default,
{
}

/// Windows is asked for just the device that was chosen: by its id in UTF-16 with
/// one zero behind it, or for the default if none was.
pub proof fn windows_is_asked_for_the_chosen_device(
    id: Option<Seq<char>>,
    wanted: Option<Vec<u16>>,
)
    requires
        asks_for(id, wanted),
    ensures
        id is None <==> wanted is None,
        id matches Some(text) ==> wanted->0@.len() == utf16(text).len() + 1 && wanted->0@.last()
            == 0 && wanted->0@.drop_last() == utf16(text),
{
    if id is Some {
        assert(wanted->0@.drop_last() =~= utf16(id->0));
    }
}

/// An endpoint moves whole or not at all: to the device that was found, with the
/// choice that was made, or to nothing new, with the reason.
pub proof fn an_endpoint_moves_whole_or_not_at_all<D>(
    pre: Endpoint<D>,
    id: Option<Seq<char>>,
    got: Result<D, AudioError>,
    post: Endpoint<D>,
    r: Result<(), AudioError>,
)
    requires
        pre.moves_to(id, got, post, r),
    ensures
        got matches Ok(live) ==> r is Ok && post.live == live && opt_text(post.selected_id) == id,
        got matches Err(e) ==> r == Err::<(), AudioError>(e) && post.live == pre.live
            && post.selected_id == pre.selected_id,
{
}

/// COM's answers zero and one let a thread have an endpoint, whatever Windows says
/// of them, and no other answer does. `0x80010106` as a bit pattern says that the
/// thread is in another apartment; every other failure passes on what Windows says.
pub proof fn zero_and_one_let_a_thread_in(
    hr: i32,
    reason: Seq<char>,
    other: Seq<char>,
    failed: Seq<char>,
    r: Result<(), AudioError>,
)
    requires
        enters_as(hr, reason, other, failed, r),
    ensures
        r is Ok <==> hr == 0 || hr == 1,
        hr == -0x7FFE_FEFA ==> (r matches Err(AudioError::Windows(message)) && message@ == other),
        hr != 0 && hr != 1 && hr != -0x7FFE_FEFA ==> (r matches Err(AudioError::Windows(message))
            && message@ == failed + reason),
{
}

/// An id that can be read is taken as it is, and one that can not is refused with
/// the reason.
pub proof fn an_id_is_taken_as_it_is(
    raw: Option<Result<String, String>>,
    r: Result<String, AudioError>,
)
    requires
        identifies(raw, r),
    ensures
        r is Ok <==> raw matches Some(Ok(_)),
        r matches Ok(id) ==> raw == Some(Ok::<String, String>(id)),
        raw matches Some(Err(reason)) ==> (r matches Err(AudioError::Windows(message)) && message@
            == reason@),
        raw is None ==> (r matches Err(AudioError::Windows(message)) && message@
            == "device returned a null id"@),
{
}

/// A name is taken as it is, and only a name that is missing or empty is refused.
pub proof fn a_name_is_taken_as_it_is(property: Option<String>, r: Result<String, AudioError>)
    requires
        names(property, r),
    ensures
        r is Ok <==> (property matches Some(name) && name@.len() != 0),
        r matches Ok(name) ==> property == Some(name),
        r matches Err(e) ==> (e matches AudioError::Windows(message) && message@
            == "device friendly name is missing or not a string"@),
{
}

/// Each device that was found is in the list, at its own place, by its own id;
/// where one could not be asked for its id, there is no list but that failure.
pub proof fn each_device_has_its_place(
    default_id: Option<String>,
    found: Seq<Result<FoundDevice, AudioError>>,
    r: Result<Vec<DeviceInfo>, AudioError>,
    i: int,
)
    requires
        lists_in_order(default_id, found, r),
        0 <= i < found.len(),
    ensures
        r matches Ok(devices) ==> devices@.len() == found.len() && (found[i] matches Ok(device)
            && devices@[i].id@ == device.id@ && (default_id matches Some(id) ==> (
        devices@[i].is_default <==> id@ == device.id@))),
        found[i] is Err ==> r is Err,
        (found[i] matches Err(e) && (forall|j: int| 0 <= j < i ==> (#[trigger] found[j]) is Ok))
            ==> r == Err::<Vec<DeviceInfo>, AudioError>(found[i]->Err_0),
{
}

} // verus!
