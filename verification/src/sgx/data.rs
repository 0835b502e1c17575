//! The records of the platform probes.
//!
//! Each probe is given what was found on the platform and decides what to
//! report of it.

use vstd::prelude::*;
use vstd::string::StringExecFns;
use crate::sgx::tcb::{
    next_update_field, next_update_of, read_next_update, rfc3339_parsed, NextUpdate,
    NextUpdateView, Now,
};
use crate::text::{decimal, to_decimal};

verus! {

/// Where the daemon that serves attestation requests listens.
pub const AESM_SOCKET: &'static str = "/var/run/aesmd/aesm.socket";

/// Where the driver offers enclaves.
pub const SGX_ENCLAVE_DEVICE: &'static str = "/dev/sgx_enclave";

/// The record of one probe: what was probed, whether it passed, what was
/// found, what to do where it did not pass, and the records of its parts.
#[derive(Debug, PartialEq, Eq)]
pub struct Datum {
    pub name: String,
    pub pass: bool,
    pub info: Option<String>,
    pub mesg: Option<String>,
    pub data: Vec<Datum>,
}

/// A record as text: the strings by their characters.
pub ghost struct DatumView {
    pub name: Seq<char>,
    pub pass: bool,
    pub info: Option<Seq<char>>,
    pub mesg: Option<Seq<char>>,
    pub data: Seq<Datum>,
}

/// The characters of a string that may be absent.
pub open spec fn text_of(text: Option<String>) -> Option<Seq<char>> {
    match text {
        Some(text) => Some(text@),
        None => None,
    }
}

/// The record of a probe without parts.
pub open spec fn leaf(
    name: Seq<char>,
    pass: bool,
    info: Option<Seq<char>>,
    mesg: Option<Seq<char>>,
) -> DatumView {
    DatumView { name, pass, info, mesg, data: Seq::empty() }
}

impl View for Datum {
    type V = DatumView;

    open spec fn view(&self) -> DatumView {
        DatumView {
            name: self.name@,
            pass: self.pass,
            info: text_of(self.info),
            mesg: text_of(self.mesg),
            data: self.data@,
        }
    }
}

/// Reports whether the device of the enclave driver could be opened.
pub fn dev_sgx_enclave(opened: bool) -> (datum: Datum)
    ensures
        datum@ == leaf("Driver"@, opened, Some(SGX_ENCLAVE_DEVICE@), None),
{
    Datum {
        name: "Driver".to_owned(),
        pass: opened,
        info: Some(SGX_ENCLAVE_DEVICE.to_owned()),
        mesg: None,
        data: Vec::new(),
    }
}

/// Reports whether the socket of the attestation daemon is there. Where
/// attestation is switched off the probe passes without the socket.
pub fn aesm_socket(attestation_disabled: bool, socket_present: bool) -> (datum: Datum)
    ensures
        datum@ == leaf(
            "AESM Daemon Socket"@,
            attestation_disabled || socket_present,
            Some(AESM_SOCKET@),
            None,
        ),
{
    Datum {
        name: "AESM Daemon Socket".to_owned(),
        pass: attestation_disabled || socket_present,
        info: Some(AESM_SOCKET.to_owned()),
        mesg: None,
        data: Vec::new(),
    }
}

/// The name of the probe of the cached TCB report.
pub const TCB_NAME: &'static str = "TCB & FMSPC cache";

/// What to do about a TCB report that is missing, unreadable or too old.
pub const TCB_INSTRUCTION: &'static str = "Run `enarx platform sgx cache-tcb`";

/// The name of the probe of the cached revocation lists.
pub const CRL_NAME: &'static str = "Intel CRL cache file";

/// What to do where there is no directory for the cache.
pub const CRL_DIRECTORY: &'static str =
    "enarx expects the directory `/var/cache/intel-sgx` to exist and be readable";

/// What to do about revocation lists that are missing, unreadable or due.
pub const CRL_INSTRUCTION: &'static str =
    "Run `enarx platform sgx cache-crl` to generate the Intel CRL cache file";

/// What was found of the cached TCB report.
#[derive(Debug)]
pub enum TcbCache {
    /// The file with the FMSPC is not there.
    MissingFmspc,
    /// The file with the report is not there.
    MissingTcb,
    /// The file with the report could not be read.
    Unreadable { reason: String },
    /// The file holds no report and the chain that signed it.
    Undecodable { reason: String },
    /// The report as it lies in the file.
    Report { bytes: Vec<u8> },
}

/// The record of a TCB report that does not pass, with what was found.
pub open spec fn tcb_failed(info: Seq<char>) -> DatumView {
    leaf(TCB_NAME@, false, Some(info), Some(TCB_INSTRUCTION@))
}

/// The time since a time of next update, as the record words it: the days
/// where there is at least one, else hours, minutes and seconds.
pub open spec fn time_since(next: NextUpdateView) -> Seq<char> {
    if next.days > 0 {
        decimal(next.days) + " days"@
    } else {
        decimal(next.hours) + ":"@ + decimal(next.minutes) + ":"@ + decimal(next.seconds)
    }
}

/// The record of a TCB report whose time of next update was read: it passes
/// unless that time has passed.
pub open spec fn tcb_expiry(next: NextUpdateView) -> DatumView {
    if next.passed {
        tcb_failed("Intel TCB expired on "@ + next.text + ", "@ + time_since(next) + " ago"@)
    } else {
        leaf(TCB_NAME@, true, Some("Next update: "@ + next.text), None)
    }
}

/// What the probe of the cached TCB report records for what was found. A
/// report whose time of next update can be read is recorded as of the time
/// of the probe: for such a report this fixes how the time prints, and
/// leaves open whether it has passed and how long ago.
pub open spec fn tcb_recorded(found: TcbCache, datum: DatumView) -> bool {
    match found {
        TcbCache::MissingFmspc => datum == leaf(
            TCB_NAME@,
            false,
            Some("Missing FMSPC"@),
            Some("Run `enarx platform sgx cache-pck`"@),
        ),
        TcbCache::MissingTcb => datum == tcb_failed("Missing TCB report"@),
        TcbCache::Unreadable { reason } => datum == tcb_failed(
            "Unable to read TCB report: "@ + reason@,
        ),
        TcbCache::Undecodable { reason } => datum == tcb_failed(
            "Unable to decode TCB report: "@ + reason@,
        ),
        TcbCache::Report { bytes } => match next_update_field(bytes@) {
            Err(info) => datum == tcb_failed(info),
            Ok(text) => match rfc3339_parsed(text) {
                Err(said) => datum == tcb_failed(
                    "Unable to decode timestamp in JSON TCB report: "@ + said,
                ),
                Ok(printed) => exists|next: NextUpdateView|
                    next.text == printed && datum == #[trigger] tcb_expiry(next),
            },
        },
    }
}

/// The record of a probe of the TCB report that does not pass.
fn tcb_failure(info: String) -> (datum: Datum)
    ensures
        datum@ == tcb_failed(info@),
{
    Datum {
        name: TCB_NAME.to_owned(),
        pass: false,
        info: Some(info),
        mesg: Some(TCB_INSTRUCTION.to_owned()),
        data: Vec::new(),
    }
}

/// Records a TCB report whose time of next update was read.
pub fn tcb_next_update(next: &NextUpdate) -> (datum: Datum)
    ensures
        datum@ == tcb_expiry(next@),
{
    if next.passed {
        let since = if next.days > 0 {
            to_decimal(next.days).concat(" days")
        } else {
            to_decimal(next.hours).concat(":").concat(to_decimal(next.minutes).as_str()).concat(
                ":",
            ).concat(to_decimal(next.seconds).as_str())
        };
        tcb_failure(
            "Intel TCB expired on ".to_owned().concat(next.text.as_str()).concat(", ").concat(
                since.as_str(),
            ).concat(" ago"),
        )
    } else {
        Datum {
            name: TCB_NAME.to_owned(),
            pass: true,
            info: Some("Next update: ".to_owned().concat(next.text.as_str())),
            mesg: None,
            data: Vec::new(),
        }
    }
}

/// Reports on the cached TCB report and FMSPC, as of `now`.
///
/// Both files are there, the report can be read and decoded, it is JSON in
/// UTF-8 that gives the time of its next update as text in the form of RFC
/// 3339, and that time has not passed: then the probe passes. Else the
/// record says which of these failed first.
pub fn tcb_fmspc_cached(found: TcbCache, now: &Now) -> (datum: Datum)
    ensures
        tcb_recorded(found, datum@),
{
    match found {
        TcbCache::MissingFmspc => Datum {
            name: TCB_NAME.to_owned(),
            pass: false,
            info: Some("Missing FMSPC".to_owned()),
            mesg: Some("Run `enarx platform sgx cache-pck`".to_owned()),
            data: Vec::new(),
        },
        TcbCache::MissingTcb => tcb_failure("Missing TCB report".to_owned()),
        TcbCache::Unreadable { reason } => tcb_failure(
            "Unable to read TCB report: ".to_owned().concat(reason.as_str()),
        ),
        TcbCache::Undecodable { reason } => tcb_failure(
            "Unable to decode TCB report: ".to_owned().concat(reason.as_str()),
        ),
        TcbCache::Report { bytes } => {
            let text = match next_update_of(bytes) {
                Ok(text) => text,
                Err(info) => { return tcb_failure(info); },
            };
            match read_next_update(text.as_str(), now) {
                Ok(next) => tcb_next_update(&next),
                Err(said) => tcb_failure(
                    "Unable to decode timestamp in JSON TCB report: ".to_owned().concat(
                        said.as_str(),
                    ),
                ),
            }
        },
    }
}

/// What was found of the cached revocation lists.
#[derive(Debug)]
pub enum CrlCache {
    /// There is no directory for the cache.
    NoDirectory { reason: String },
    /// The file with the lists is not there.
    Missing,
    /// The file with the lists could not be read.
    Unreadable { reason: String },
    /// The file holds no lists.
    Undecodable { reason: String },
    /// The lists: where the file is, for each list the time at which its next
    /// update is due, in seconds since 1970, where it names one, and the
    /// time of the next update of the lists as a whole, as it prints, where
    /// they have one.
    Loaded { path: String, updates: Vec<Option<u64>>, next_update: Option<String> },
}

/// The record of a probe of the revocation lists that does not pass.
pub open spec fn crl_failed(info: Option<Seq<char>>) -> DatumView {
    leaf(CRL_NAME@, false, info, Some(CRL_INSTRUCTION@))
}

/// Whether the next update of one of the lists is due at the time `now`.
pub open spec fn any_due(updates: Seq<Option<u64>>, now: u64) -> bool {
    exists|i: int| 0 <= i < updates.len() && (#[trigger] updates[i]) is Some && updates[i]->0 <= now
}

/// What the probe of the cached revocation lists records for what was found
/// at the time `now`, in seconds since 1970.
pub open spec fn crl_recorded(found: CrlCache, now: u64) -> DatumView {
    match found {
        CrlCache::NoDirectory { reason } => leaf(
            CRL_NAME@,
            false,
            Some(reason@),
            Some(CRL_DIRECTORY@),
        ),
        CrlCache::Missing => crl_failed(None),
        CrlCache::Unreadable { reason } => crl_failed(Some(reason@)),
        CrlCache::Undecodable { reason } => crl_failed(Some(reason@)),
        CrlCache::Loaded { path, updates, next_update } => if any_due(updates@, now) {
            crl_failed(None)
        } else {
            match next_update {
                Some(text) => leaf(
                    CRL_NAME@,
                    true,
                    Some(path@ + ", next update "@ + text@),
                    None,
                ),
                None => leaf(CRL_NAME@, true, Some(path@), None),
            }
        },
    }
}

/// The record of a probe of the revocation lists that does not pass.
fn crl_failure(info: Option<String>) -> (datum: Datum)
    ensures
        datum@ == crl_failed(text_of(info)),
{
    Datum {
        name: CRL_NAME.to_owned(),
        pass: false,
        info,
        mesg: Some(CRL_INSTRUCTION.to_owned()),
        data: Vec::new(),
    }
}

/// Whether the next update of one of the lists is due at the time `now`.
pub fn update_due(updates: &Vec<Option<u64>>, now: u64) -> (due: bool)
    ensures
        due == any_due(updates@, now),
{
    let mut index: usize = 0;
    while index < updates.len()
        invariant
            index <= updates.len(),
            forall|i: int|
                0 <= i < index ==> !((#[trigger] updates[i]) is Some && updates[i]->0 <= now),
        decreases updates.len() - index,
    {
        match updates[index] {
            Some(at) => {
                if at <= now {
                    return true;
                }
            },
            None => {},
        }
        index += 1;
    }
    false
}

/// Reports on the cached revocation lists, at the time `now` in seconds
/// since 1970.
///
/// The directory and the file are there, the file can be read and decoded,
/// and no list is due for its next update: then the probe passes, and the
/// record names the file and, where the lists have one, the time of their
/// next update. Else the record says which of these failed first.
pub fn intel_crl(found: CrlCache, now: u64) -> (datum: Datum)
    ensures
        datum@ == crl_recorded(found, now),
{
    match found {
        CrlCache::NoDirectory { reason } => Datum {
            name: CRL_NAME.to_owned(),
            pass: false,
            info: Some(reason),
            mesg: Some(CRL_DIRECTORY.to_owned()),
            data: Vec::new(),
        },
        CrlCache::Missing => crl_failure(None),
        CrlCache::Unreadable { reason } => crl_failure(Some(reason)),
        CrlCache::Undecodable { reason } => crl_failure(Some(reason)),
        CrlCache::Loaded { path, updates, next_update } => {
            if update_due(&updates, now) {
                return crl_failure(None);
            }
            let info = match next_update {
                Some(text) => path.concat(", next update ").concat(text.as_str()),
                None => path,
            };
            Datum {
                name: CRL_NAME.to_owned(),
                pass: true,
                info: Some(info),
                mesg: None,
                data: Vec::new(),
            }
        },
    }
}

/// What the processor answers to one query for a CPUID leaf.
#[derive(Clone, Copy, Debug, PartialEq, Eq, Structural)]
pub struct CpuidResult {
    pub eax: u32,
    pub ebx: u32,
    pub ecx: u32,
    pub edx: u32,
}

/// The CPUID leaf that describes SGX. Its sub-leaves from 2 on describe the
/// sections of the enclave page cache.
pub const SGX_LEAF: u32 = 0x12;

/// Whether a sub-leaf describes a section of the enclave page cache: the
/// low four bits of `eax` hold the type of the sub-leaf, and 1 is a section.
pub open spec fn is_epc_section(leaf: CpuidResult) -> bool {
    leaf.eax & 0xf == 1
}

/// The size that is counted for a section: the low twenty bits of `edx`,
/// moved up by twelve, joined with the bits 12 to 31 of `ecx`.
pub open spec fn epc_section_size(leaf: CpuidResult) -> u64 {
    ((leaf.edx as u64 & 0x000fffff) << 12) | (leaf.ecx as u64 & 0xfffff000)
}

/// The sizes of the sections that the sub-leaves describe, added up; the
/// first sub-leaf that is no section ends the list.
pub open spec fn epc_bytes(leaves: Seq<CpuidResult>) -> int
    decreases leaves.len(),
{
    if leaves.len() == 0 || !is_epc_section(leaves[0]) {
        0
    } else {
        epc_section_size(leaves[0]) + epc_bytes(leaves.subrange(1, leaves.len() as int))
    }
}

/// The size that is counted for a sub-leaf, where it describes a section.
pub fn epc_section(leaf: CpuidResult) -> (size: Option<u64>)
    ensures
        size is Some <==> is_epc_section(leaf),
        size matches Some(bytes) ==> bytes == epc_section_size(leaf) && bytes <= u32::MAX,
{
    if leaf.eax & 0xf != 1 {
        return None;
    }
    let ecx: u64 = leaf.ecx as u64;
    let edx: u64 = leaf.edx as u64;
    let low: u64 = ecx & 0xfffff000;
    let high: u64 = edx & 0x000fffff;
    let bytes: u64 = high << 12 | low;
    assert(((edx & 0x000fffff) << 12 | (ecx & 0xfffff000)) <= 0xffff_ffff) by (bit_vector)
        requires
            ecx <= 0xffff_ffff,
    ;
    Some(bytes)
}

/// Adds up the sizes of the sections that the sub-leaves describe, in the
/// order of the sub-leaves and up to the first that is no section.
pub fn epc_total(leaves: &Vec<CpuidResult>) -> (total: u64)
    requires
        leaves.len() <= u32::MAX,
    ensures
        total == epc_bytes(leaves@),
{
    let mut total: u64 = 0;
    let mut index: usize = 0;
    assert(leaves@.subrange(0, leaves.len() as int) == leaves@);
    while index < leaves.len()
        invariant
            index <= leaves.len() <= u32::MAX,
            total <= index * 0xffff_ffff,
            epc_bytes(leaves@) == total + epc_bytes(
                leaves@.subrange(index as int, leaves.len() as int),
            ),
        decreases leaves.len() - index,
    {
        let rest = Ghost(leaves@.subrange(index as int, leaves.len() as int));
        assert(rest@[0] == leaves[index as int]);
        assert(rest@.subrange(1, rest@.len() as int) == leaves@.subrange(
            index + 1,
            leaves.len() as int,
        ));
        match epc_section(leaves[index]) {
            Some(bytes) => {
                assert(total + bytes <= (index + 1) * 0xffff_ffff) by (nonlinear_arith)
                    requires
                        total <= index * 0xffff_ffff,
                        bytes <= 0xffff_ffff,
                ;
                assert((index + 1) * 0xffff_ffff <= u64::MAX) by (nonlinear_arith)
                    requires
                        index + 1 <= 0xffff_ffff,
                ;
                total += bytes;
            },
            None => {
                return total;
            },
        }
        index += 1;
    }
    total
}

/// The unit of a size that was divided by 1024 `steps` times: none for
/// bytes, then the binary units from KiB to YiB. There is none beyond.
pub open spec fn unit_after(steps: u32) -> Option<Seq<char>> {
    if steps == 0 {
        Some(""@)
    } else if steps == 1 {
        Some("KiB"@)
    } else if steps == 2 {
        Some("MiB"@)
    } else if steps == 3 {
        Some("GiB"@)
    } else if steps == 4 {
        Some("TiB"@)
    } else if steps == 5 {
        Some("PiB"@)
    } else if steps == 6 {
        Some("EiB"@)
    } else if steps == 7 {
        Some("ZiB"@)
    } else if steps == 8 {
        Some("YiB"@)
    } else {
        None
    }
}

/// The unit of a size that was divided by 1024 `steps` times.
pub fn size_suffix(steps: u32) -> (unit: Option<&'static str>)
    ensures
        unit is Some <==> unit_after(steps) is Some,
        unit matches Some(text) ==> unit_after(steps) == Some(text@),
{
    match steps {
        0 => Some(""),
        1 => Some("KiB"),
        2 => Some("MiB"),
        3 => Some("GiB"),
        4 => Some("TiB"),
        5 => Some("PiB"),
        6 => Some("EiB"),
        7 => Some("ZiB"),
        8 => Some("YiB"),
        _ => None,
    }
}

/// Reports the size of the enclave page cache. A processor whose highest
/// CPUID leaf, `max`, is below the SGX leaf has none to report; for any
/// other the probe passes and records `size`, the size as it is to be read.
pub fn epc_size(max: u32, size: String) -> (datum: Datum)
    ensures
        datum@ == leaf(
            "EPC Size"@,
            max >= SGX_LEAF,
            if max >= SGX_LEAF {
                Some(size@)
            } else {
                None
            },
            None,
        ),
{
    let pass = max >= SGX_LEAF;
    Datum {
        name: "EPC Size".to_owned(),
        pass,
        info: if pass {
            Some(size)
        } else {
            None
        },
        mesg: None,
        data: Vec::new(),
    }
}

} // verus!
