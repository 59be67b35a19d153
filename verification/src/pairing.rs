use rand::RngCore;
use vstd::prelude::*;

use crate::pairing_service::DEFAULT_PAIR_PORT;
use crate::text::{hex_lower, is_hex_char, lemma_hex_lower_shape, push_hex};

verus! {

/// What the pairing QR code carries: where the PC listens and the one-time pairing token.
#[derive(Debug, Clone, PartialEq, Eq)]
pub struct PairingInfo {
    pub ip: String,
    pub port: u16,
    pub control_port: u16,
    pub pair_port: u16,
    pub token: String,
}

/// A phone this PC has paired with.
#[derive(Debug, Clone, PartialEq, Eq)]
pub struct PairedDevice {
    pub name: String,
    pub ip: String,
    pub port: u16,
    pub control_port: u16,
    pub device_id: String,
}

/// The saved list of paired phones.
#[derive(Debug, Clone, Default, PartialEq, Eq)]
pub struct PairingStore {
    pub devices: Vec<PairedDevice>,
}

/// Number of random bytes in a pairing token.
pub const TOKEN_BYTES: usize = 16;

/// The control port assumed when a record names none.
pub fn default_control_port() -> (r: u16)
    ensures
        r == 5001,
{
    5001
}

/// The pairing port assumed when a record names none.
pub fn default_pair_port() -> (r: u16)
    ensures
        r == DEFAULT_PAIR_PORT,
{
    DEFAULT_PAIR_PORT
}

/// Whether `t` is the text of a pairing token: the lower-case hex of `TOKEN_BYTES` bytes.
pub open spec fn is_token(t: Seq<char>) -> bool {
    exists|b: Seq<u8>| b.len() == TOKEN_BYTES && t == hex_lower(b)
}

/// A pairing token is 32 characters long, all of them hexadecimal digits.
pub proof fn lemma_token_shape(t: Seq<char>)
    requires
        is_token(t),
    ensures
        t.len() == 2 * TOKEN_BYTES,
        forall|i: int| 0 <= i < t.len() ==> is_hex_char(#[trigger] t[i]),
{
    let b = choose|b: Seq<u8>| b.len() == TOKEN_BYTES && t == hex_lower(b);
    lemma_hex_lower_shape(b);
}

#[verifier::external_type_specification]
#[verifier::external_body]
pub struct ExThreadRng(rand::rngs::ThreadRng);

/// Calls `rand::thread_rng`, the handle to the calling thread's random generator.
/// Nothing is stated of it: it stands for a source of chance.
#[verifier::external_body]
fn thread_rng() -> rand::rngs::ThreadRng {
    rand::thread_rng()
}

/// Calls `RngCore::fill_bytes` on a `ThreadRng`: overwrites `dest` with random bytes.
/// Nothing is stated of the bytes (they rest on chance); the array keeps its length by its type.
/// It panics only where the operating system cannot supply randomness.
#[verifier::external_body]
fn fill_bytes(rng: &mut rand::rngs::ThreadRng, dest: &mut [u8; 16]) {
    rng.fill_bytes(dest)
}

/// A fresh pairing token: 16 random bytes as 32 lower-case hex digits.
pub fn generate_token() -> (r: String)
    ensures
        is_token(r@),
{
    let mut buf = [0u8; 16];
    let mut rng = thread_rng();
    fill_bytes(&mut rng, &mut buf);
    let mut s = String::new();
    push_hex(&mut s, &buf);
    assert(s@ =~= hex_lower(buf@));
    s
}

/// Pairing information for a PC at `ip` streaming video on `port`, with the default control port.
pub fn make_pairing_info(ip: &str, port: u16) -> (r: PairingInfo)
    ensures
        r.ip@ == ip@,
        r.port == port,
        r.control_port == 5001,
        r.pair_port == DEFAULT_PAIR_PORT,
        is_token(r.token@),
{
    make_pairing_info_with_control(ip, port, default_control_port())
}

/// Pairing information for a PC at `ip` with the given video and control ports and a fresh token.
pub fn make_pairing_info_with_control(ip: &str, port: u16, control_port: u16) -> (r: PairingInfo)
    ensures
        r.ip@ == ip@,
        r.port == port,
        r.control_port == control_port,
        r.pair_port == DEFAULT_PAIR_PORT,
        is_token(r.token@),
{
    PairingInfo {
        ip: ip.to_owned(),
        port,
        control_port,
        pair_port: default_pair_port(),
        token: generate_token(),
    }
}

/// The device record made from pairing information: the token becomes the device id.
pub fn make_device_from_pairing(name: &str, info: &PairingInfo) -> (r: PairedDevice)
    ensures
        r.name@ == name@,
        r.ip == info.ip,
        r.port == info.port,
        r.control_port == info.control_port,
        r.device_id == info.token,
{
    PairedDevice {
        name: name.to_owned(),
        ip: info.ip.clone(),
        port: info.port,
        control_port: info.control_port,
        device_id: info.token.clone(),
    }
}

/// Whether some device in `devices` has the id `id`.
pub open spec fn has_device(devices: Seq<PairedDevice>, id: Seq<char>) -> bool {
    exists|i: int| 0 <= i < devices.len() && (#[trigger] devices[i]).device_id@ == id
}

/// Whether `i` is the first index of a device with id `id`.
pub open spec fn is_first_with_id(devices: Seq<PairedDevice>, id: Seq<char>, i: int) -> bool {
    &&& 0 <= i < devices.len()
    &&& devices[i].device_id@ == id
    &&& forall|j: int| 0 <= j < i ==> (#[trigger] devices[j]).device_id@ != id
}

/// The first index of a device with id `id` (meaningful when there is one).
pub open spec fn first_with_id(devices: Seq<PairedDevice>, id: Seq<char>) -> int {
    choose|i: int| is_first_with_id(devices, id, i)
}

/// The list after an upsert of `d`: the first device with `d`'s id is replaced by `d`,
/// or `d` is appended when no device has that id.
pub open spec fn upserted(devices: Seq<PairedDevice>, d: PairedDevice) -> Seq<PairedDevice> {
    if has_device(devices, d.device_id@) {
        devices.update(first_with_id(devices, d.device_id@), d)
    } else {
        devices.push(d)
    }
}

/// Whether no two devices in the list share an id.
pub open spec fn ids_unique(devices: Seq<PairedDevice>) -> bool {
    forall|i: int, j: int|
        0 <= i < devices.len() && 0 <= j < devices.len() && i != j ==> (#[trigger] devices[i]).device_id@
            != (#[trigger] devices[j]).device_id@
}

/// When some device has the id, a first one exists.
pub proof fn lemma_first_with_id(devices: Seq<PairedDevice>, id: Seq<char>)
    requires
        has_device(devices, id),
    ensures
        is_first_with_id(devices, id, first_with_id(devices, id)),
    decreases devices.len(),
{
    let k = choose|i: int| 0 <= i < devices.len() && (#[trigger] devices[i]).device_id@ == id;
    if has_device(devices.drop_last(), id) {
        lemma_first_with_id(devices.drop_last(), id);
        let f = first_with_id(devices.drop_last(), id);
        assert(devices.drop_last()[f] == devices[f]);
        assert forall|j: int| 0 <= j < f implies (#[trigger] devices[j]).device_id@ != id by {
            assert(devices.drop_last()[j] == devices[j]);
        }
        assert(is_first_with_id(devices, id, f));
    } else {
        let l = devices.len() - 1;
        assert forall|j: int| 0 <= j < l implies (#[trigger] devices[j]).device_id@ != id by {
            assert(devices.drop_last()[j] == devices[j]);
        }
        if k != l {
            assert(devices.drop_last()[k] == devices[k]);
        }
        assert(is_first_with_id(devices, id, l));
    }
}

/// Adds `device` to the store, replacing the first device with the same id if there is one.
pub fn upsert_device(store: &mut PairingStore, device: PairedDevice)
    ensures
        final(store).devices@ == upserted(old(store).devices@, device),
{
    let ghost id = device.device_id@;
    let n = store.devices.len();
    let mut i: usize = 0;
    while i < n
        invariant
            n == store.devices@.len(),
            store.devices@ == old(store).devices@,
            i <= n,
            forall|j: int| 0 <= j < i ==> (#[trigger] store.devices@[j]).device_id@ != id,
            id == device.device_id@,
        decreases n - i,
    {
        if store.devices[i].device_id == device.device_id {
            proof {
                assert(is_first_with_id(store.devices@, id, i as int));
                assert(has_device(store.devices@, id));
                lemma_first_with_id(store.devices@, id);
                let f = first_with_id(store.devices@, id);
                if f < i {
                    assert(store.devices@[f].device_id@ != id);
                }
                if f > i {
                    assert(store.devices@[i as int].device_id@ != id);
                }
                assert(f == i);
            }
            store.devices.set(i, device);
            return;
        }
        i = i + 1;
    }
    proof {
        if has_device(store.devices@, id) {
            let k = choose|k: int| 0 <= k < store.devices@.len() && (#[trigger] store.devices@[k]).device_id@ == id;
            assert(store.devices@[k].device_id@ != id);
        }
    }
    store.devices.push(device);
}

/// After an upsert the device is in the list, at the first place with its id.
pub proof fn lemma_upsert_contains(devices: Seq<PairedDevice>, d: PairedDevice)
    ensures
        is_first_with_id(upserted(devices, d), d.device_id@, first_with_id(upserted(devices, d), d.device_id@)),
        upserted(devices, d)[first_with_id(upserted(devices, d), d.device_id@)] == d,
{
    let id = d.device_id@;
    let r = upserted(devices, d);
    if has_device(devices, id) {
        lemma_first_with_id(devices, id);
        let f = first_with_id(devices, id);
        assert(is_first_with_id(r, id, f));
        assert(has_device(r, id));
        lemma_first_with_id(r, id);
        let g = first_with_id(r, id);
        if g < f {
            assert(r[g] == devices[g]);
        }
        if g > f {
            assert(r[f].device_id@ == id);
        }
    } else {
        let l = devices.len() as int;
        assert(r[l] == d);
        assert(has_device(r, id));
        lemma_first_with_id(r, id);
        let g = first_with_id(r, id);
        if g < l {
            assert(r[g] == devices[g]);
        }
    }
}

/// An upsert keeps every device with another id, in place, and adds at most one entry:
/// the length grows by one exactly when no device had the id.
pub proof fn lemma_upsert_keeps_others(devices: Seq<PairedDevice>, d: PairedDevice)
    ensures
        upserted(devices, d).len() == devices.len() + if has_device(devices, d.device_id@) {
            0int
        } else {
            1int
        },
        forall|i: int|
            0 <= i < devices.len() && devices[i].device_id@ != d.device_id@ ==> (#[trigger] upserted(
                devices,
                d,
            )[i]) == devices[i],
{
    if has_device(devices, d.device_id@) {
        lemma_first_with_id(devices, d.device_id@);
    }
}

/// Upserts keep device ids unique.
pub proof fn lemma_upsert_keeps_ids_unique(devices: Seq<PairedDevice>, d: PairedDevice)
    requires
        ids_unique(devices),
    ensures
        ids_unique(upserted(devices, d)),
{
    let id = d.device_id@;
    let r = upserted(devices, d);
    if has_device(devices, id) {
        lemma_first_with_id(devices, id);
        let f = first_with_id(devices, id);
        assert forall|i: int, j: int|
            0 <= i < r.len() && 0 <= j < r.len() && i != j implies (#[trigger] r[i]).device_id@
                != (#[trigger] r[j]).device_id@ by {
            if i != f && j != f {
                assert(devices[i].device_id@ != devices[j].device_id@);
            } else if i == f {
                assert(devices[f].device_id@ != devices[j].device_id@);
            } else {
                assert(devices[i].device_id@ != devices[f].device_id@);
            }
        }
    } else {
        assert forall|i: int, j: int|
            0 <= i < r.len() && 0 <= j < r.len() && i != j implies (#[trigger] r[i]).device_id@
                != (#[trigger] r[j]).device_id@ by {
            let l = devices.len() as int;
            if i < l && j < l {
                assert(devices[i].device_id@ != devices[j].device_id@);
            } else if i == l {
                assert(devices[j].device_id@ != id);
            } else {
                assert(devices[i].device_id@ != id);
            }
        }
    }
}

/// Upserting the same device twice is the same as upserting it once.
pub proof fn lemma_upsert_idempotent(devices: Seq<PairedDevice>, d: PairedDevice)
    ensures
        upserted(upserted(devices, d), d) == upserted(devices, d),
{
    let id = d.device_id@;
    let r = upserted(devices, d);
    lemma_upsert_contains(devices, d);
    let g = first_with_id(r, id);
    assert(has_device(r, id)) by {
        assert(r[g].device_id@ == id);
    }
    assert(r.update(g, d) =~= r);
}

} // verus!
