use keep_backend::sgx::data::{
    aesm_socket, dev_sgx_enclave, epc_section, epc_size, epc_total, intel_crl, size_suffix,
    tcb_fmspc_cached, tcb_next_update, update_due, CpuidResult, CrlCache, Datum, TcbCache,
};
use keep_backend::sgx::tcb::{next_update_in, next_update_of, read_next_update, NextUpdate, Now};

const TCB_INSTRUCTION: &str = "Run `enarx platform sgx cache-tcb`";
const CRL_INSTRUCTION: &str =
    "Run `enarx platform sgx cache-crl` to generate the Intel CRL cache file";

fn datum(name: &str, pass: bool, info: Option<&str>, mesg: Option<&str>) -> Datum {
    Datum {
        name: name.to_string(),
        pass,
        info: info.map(str::to_string),
        mesg: mesg.map(str::to_string),
        data: vec![],
    }
}

fn tcb_failed(info: &str) -> Datum {
    datum("TCB & FMSPC cache", false, Some(info), Some(TCB_INSTRUCTION))
}

fn clock(text: &str) -> chrono::NaiveDateTime {
    chrono::NaiveDateTime::parse_from_str(text, "%Y-%m-%d %H:%M:%S").unwrap()
}

fn now(utc: &str, local: &str) -> Now {
    Now { utc: clock(utc), local: clock(local) }
}

fn noon() -> Now {
    now("2024-06-01 12:00:00", "2024-06-01 12:00:00")
}

fn report(text: &str) -> TcbCache {
    TcbCache::Report { bytes: text.as_bytes().to_vec() }
}

fn section(ecx: u32, edx: u32) -> CpuidResult {
    CpuidResult { eax: 1, ebx: 0, ecx, edx }
}

#[test]
fn aesm_socket_passes_when_the_socket_is_there() {
    let socket = Some("/var/run/aesmd/aesm.socket");
    assert_eq!(aesm_socket(false, true), datum("AESM Daemon Socket", true, socket, None));
    assert_eq!(aesm_socket(false, false), datum("AESM Daemon Socket", false, socket, None));
}

#[test]
fn aesm_socket_passes_when_attestation_is_switched_off() {
    let socket = Some("/var/run/aesmd/aesm.socket");
    assert_eq!(aesm_socket(true, false), datum("AESM Daemon Socket", true, socket, None));
    assert_eq!(aesm_socket(true, true), datum("AESM Daemon Socket", true, socket, None));
}

#[test]
fn driver_passes_when_the_device_opens() {
    assert_eq!(dev_sgx_enclave(true), datum("Driver", true, Some("/dev/sgx_enclave"), None));
    assert_eq!(dev_sgx_enclave(false), datum("Driver", false, Some("/dev/sgx_enclave"), None));
}

#[test]
fn epc_section_joins_the_two_registers() {
    assert_eq!(epc_section(section(0x1234_5fff, 0xfff0_0003)), Some(0x1234_7000));
    assert_eq!(epc_section(section(0xffff_ffff, 0)), Some(0xffff_f000));
    assert_eq!(epc_section(section(0, 0xffff_ffff)), Some(0xffff_f000));
    assert_eq!(epc_section(section(0x0600_0000, 0)), Some(0x0600_0000));
    assert_eq!(epc_section(CpuidResult { eax: 0xabc1, ebx: 9, ecx: 0x1000, edx: 0 }), Some(0x1000));
}

#[test]
fn epc_section_is_none_for_another_type_of_leaf() {
    assert_eq!(epc_section(CpuidResult { eax: 0, ebx: 0, ecx: 0x1000, edx: 0 }), None);
    assert_eq!(epc_section(CpuidResult { eax: 2, ebx: 0, ecx: 0x1000, edx: 0 }), None);
    assert_eq!(epc_section(CpuidResult { eax: 0x11, ebx: 0, ecx: 0x1000, edx: 0 }), Some(0x1000));
    assert_eq!(epc_section(CpuidResult { eax: 0xf, ebx: 0, ecx: 0x1000, edx: 0 }), None);
}

#[test]
fn epc_total_stops_at_the_first_leaf_that_is_no_section() {
    let none = CpuidResult { eax: 0, ebx: 0, ecx: 0x4000, edx: 0 };
    assert_eq!(epc_total(&vec![]), 0);
    assert_eq!(epc_total(&vec![none, section(0x1000, 0)]), 0);
    assert_eq!(epc_total(&vec![section(0x1000, 0), section(0x2000, 1)]), 0x1000 + 0x3000);
    assert_eq!(epc_total(&vec![section(0x1000, 0), none, section(0x2000, 0)]), 0x1000);
    assert_eq!(epc_total(&vec![section(0xffff_f000, 0); 3]), 3 * 0xffff_f000u64);
}

#[test]
fn epc_size_is_reported_from_the_sgx_leaf_on() {
    assert_eq!(epc_size(0x12, "94 MiB".to_string()), datum("EPC Size", true, Some("94 MiB"), None));
    assert_eq!(epc_size(0x1b, "0 ".to_string()), datum("EPC Size", true, Some("0 "), None));
    assert_eq!(epc_size(0x11, "94 MiB".to_string()), datum("EPC Size", false, None, None));
    assert_eq!(epc_size(0, String::new()), datum("EPC Size", false, None, None));
}

#[test]
fn crl_without_a_cache_directory() {
    let found = CrlCache::NoDirectory { reason: "no such directory".to_string() };
    assert_eq!(
        intel_crl(found, 0),
        datum(
            "Intel CRL cache file",
            false,
            Some("no such directory"),
            Some("enarx expects the directory `/var/cache/intel-sgx` to exist and be readable"),
        )
    );
}

#[test]
fn crl_missing_unreadable_or_undecodable() {
    let failed = |info| datum("Intel CRL cache file", false, info, Some(CRL_INSTRUCTION));
    assert_eq!(intel_crl(CrlCache::Missing, 5), failed(None));
    assert_eq!(
        intel_crl(CrlCache::Unreadable { reason: "permission denied".to_string() }, 5),
        failed(Some("permission denied"))
    );
    assert_eq!(
        intel_crl(CrlCache::Undecodable { reason: "unexpected tag".to_string() }, 5),
        failed(Some("unexpected tag"))
    );
}

#[test]
fn crl_fails_when_a_list_is_due() {
    let lists = |updates| CrlCache::Loaded {
        path: "/var/cache/intel-sgx/crls.der".to_string(),
        updates,
        next_update: Some("2030-01-01".to_string()),
    };
    let failed = datum("Intel CRL cache file", false, None, Some(CRL_INSTRUCTION));
    assert_eq!(intel_crl(lists(vec![Some(2000), Some(1000)]), 1000), failed);
    assert_eq!(intel_crl(lists(vec![None, Some(999), None]), 1000), failed);
    assert!(intel_crl(lists(vec![Some(2000), Some(1001)]), 1000).pass);
    assert!(intel_crl(lists(vec![None, None]), u64::MAX).pass);
    assert!(intel_crl(lists(vec![]), 1000).pass);
}

#[test]
fn crl_passes_with_the_file_and_the_next_update() {
    let path = "/var/cache/intel-sgx/crls.der";
    let lists = |next_update: Option<&str>| CrlCache::Loaded {
        path: path.to_string(),
        updates: vec![Some(2000)],
        next_update: next_update.map(str::to_string),
    };
    assert_eq!(
        intel_crl(lists(Some("2030-01-01 00:00:00 UTC")), 1000),
        datum(
            "Intel CRL cache file",
            true,
            Some("/var/cache/intel-sgx/crls.der, next update 2030-01-01 00:00:00 UTC"),
            None,
        )
    );
    assert_eq!(intel_crl(lists(None), 1000), datum("Intel CRL cache file", true, Some(path), None));
}

#[test]
fn update_is_due_from_its_own_second_on() {
    assert!(!update_due(&vec![], 10));
    assert!(!update_due(&vec![None], 10));
    assert!(!update_due(&vec![Some(11)], 10));
    assert!(update_due(&vec![Some(10)], 10));
    assert!(update_due(&vec![Some(11), None, Some(0)], 10));
}

#[test]
fn tcb_missing_files() {
    assert_eq!(
        tcb_fmspc_cached(TcbCache::MissingFmspc, &noon()),
        datum(
            "TCB & FMSPC cache",
            false,
            Some("Missing FMSPC"),
            Some("Run `enarx platform sgx cache-pck`"),
        )
    );
    assert_eq!(tcb_fmspc_cached(TcbCache::MissingTcb, &noon()), tcb_failed("Missing TCB report"));
}

#[test]
fn tcb_unreadable_or_undecodable_file() {
    assert_eq!(
        tcb_fmspc_cached(TcbCache::Unreadable { reason: "permission denied".to_string() }, &noon()),
        tcb_failed("Unable to read TCB report: permission denied")
    );
    assert_eq!(
        tcb_fmspc_cached(TcbCache::Undecodable { reason: "unexpected tag".to_string() }, &noon()),
        tcb_failed("Unable to decode TCB report: unexpected tag")
    );
}

#[test]
fn tcb_report_that_is_no_utf8() {
    let bytes = vec![b'{', 0xff, b'}'];
    let said = String::from_utf8(bytes.clone()).unwrap_err().to_string();
    assert_eq!(
        tcb_fmspc_cached(TcbCache::Report { bytes: bytes.clone() }, &noon()),
        tcb_failed(&format!("Unable to decode JSON TCB report: {}", said))
    );
    assert_eq!(next_update_of(bytes), Err(format!("Unable to decode JSON TCB report: {}", said)));
}

#[test]
fn tcb_report_that_is_no_json() {
    let text = "{\"tcbInfo\": ";
    let said = serde_json::from_str::<serde_json::Value>(text).unwrap_err().to_string();
    assert!(!said.is_empty());
    assert_eq!(
        tcb_fmspc_cached(report(text), &noon()),
        tcb_failed(&format!("Unable to decode JSON TCB report: {}", said))
    );
}

#[test]
fn tcb_report_without_the_time_of_its_next_update() {
    let missing_info = "Unable to decode JSON TCB report, missing `tcbInfo` field";
    let missing_next = "Unable to decode JSON TCB report, missing `tcbInfo.nextUpdate` field";
    let no_text = "Unable to decode JSON TCB report, unable to decode `tcbInfo.nextUpdate` field";
    assert_eq!(tcb_fmspc_cached(report("{}"), &noon()), tcb_failed(missing_info));
    assert_eq!(tcb_fmspc_cached(report("[1, 2]"), &noon()), tcb_failed(missing_info));
    assert_eq!(tcb_fmspc_cached(report("{\"nextUpdate\": \"x\"}"), &noon()), tcb_failed(missing_info));
    assert_eq!(tcb_fmspc_cached(report("{\"tcbInfo\": {}}"), &noon()), tcb_failed(missing_next));
    assert_eq!(tcb_fmspc_cached(report("{\"tcbInfo\": \"nextUpdate\"}"), &noon()), tcb_failed(missing_next));
    assert_eq!(
        tcb_fmspc_cached(report("{\"tcbInfo\": {\"nextUpdate\": 17}}"), &noon()),
        tcb_failed(no_text)
    );
    assert_eq!(
        tcb_fmspc_cached(report("{\"tcbInfo\": {\"nextUpdate\": null}}"), &noon()),
        tcb_failed(no_text)
    );
}

#[test]
fn next_update_is_the_text_under_the_two_keys() {
    let text = "{\"other\": 1, \"tcbInfo\": {\"version\": 2, \"nextUpdate\": \"2030-01-01T00:00:00Z\"}}";
    assert_eq!(next_update_of(text.as_bytes().to_vec()), Ok("2030-01-01T00:00:00Z".to_string()));
    let document: serde_json::Value = serde_json::from_str(text).unwrap();
    assert_eq!(next_update_in(&document), Ok("2030-01-01T00:00:00Z".to_string()));
    let inner = document.get("tcbInfo").unwrap();
    assert_eq!(
        next_update_in(inner),
        Err("Unable to decode JSON TCB report, missing `tcbInfo` field".to_string())
    );
}

#[test]
fn tcb_time_that_is_not_in_the_form() {
    let said = chrono::DateTime::parse_from_rfc3339("next week").unwrap_err().to_string();
    assert!(!said.is_empty());
    assert_eq!(
        tcb_fmspc_cached(report("{\"tcbInfo\": {\"nextUpdate\": \"next week\"}}"), &noon()),
        tcb_failed(&format!("Unable to decode timestamp in JSON TCB report: {}", said))
    );
}

#[test]
fn tcb_passes_before_the_next_update() {
    let found = report("{\"tcbInfo\": {\"nextUpdate\": \"2030-01-01T00:00:00Z\"}}");
    assert_eq!(
        tcb_fmspc_cached(found, &noon()),
        datum("TCB & FMSPC cache", true, Some("Next update: 2030-01-01 00:00:00 +00:00"), None)
    );
    let same = report("{\"tcbInfo\": {\"nextUpdate\": \"2024-06-01T12:00:00Z\"}}");
    assert!(tcb_fmspc_cached(same, &noon()).pass);
}

#[test]
fn tcb_expired_days_ago() {
    let found = report("{\"tcbInfo\": {\"nextUpdate\": \"2020-01-01T00:00:00Z\"}}");
    assert_eq!(
        tcb_fmspc_cached(found, &now("2020-01-03 12:00:00", "2020-01-03 12:00:00")),
        tcb_failed("Intel TCB expired on 2020-01-01 00:00:00 +00:00, 2 days ago")
    );
}

#[test]
fn tcb_expired_within_the_day() {
    let found = report("{\"tcbInfo\": {\"nextUpdate\": \"2020-01-01T00:00:00Z\"}}");
    assert_eq!(
        tcb_fmspc_cached(found, &now("2020-01-01 01:02:03", "2020-01-01 01:02:03")),
        tcb_failed("Intel TCB expired on 2020-01-01 00:00:00 +00:00, 1:62:3723 ago")
    );
}

#[test]
fn tcb_expired_as_read_on_clocks_of_another_zone() {
    let found = report("{\"tcbInfo\": {\"nextUpdate\": \"2020-01-01T00:00:00+02:00\"}}");
    assert_eq!(
        tcb_fmspc_cached(found, &now("2019-12-31 23:00:00", "2019-12-31 18:00:00")),
        tcb_failed("Intel TCB expired on 2020-01-01 00:00:00 +02:00, -6:-360:-21600 ago")
    );
}

#[test]
fn tcb_record_of_a_time_that_was_read() {
    let read = |passed, days| NextUpdate {
        text: "then".to_string(),
        passed,
        days,
        hours: 49,
        minutes: 2950,
        seconds: 177000,
    };
    assert_eq!(
        tcb_next_update(&read(false, 2)),
        datum("TCB & FMSPC cache", true, Some("Next update: then"), None)
    );
    assert_eq!(tcb_next_update(&read(true, 2)), tcb_failed("Intel TCB expired on then, 2 days ago"));
    assert_eq!(
        tcb_next_update(&read(true, 0)),
        tcb_failed("Intel TCB expired on then, 49:2950:177000 ago")
    );
    assert_eq!(
        tcb_next_update(&read(true, -1)),
        tcb_failed("Intel TCB expired on then, 49:2950:177000 ago")
    );
}

#[test]
fn next_update_is_read_as_of_now() {
    let at = now("2020-01-03 12:00:00", "2020-01-03 14:00:00");
    assert_eq!(
        read_next_update("2020-01-01T00:00:00+02:00", &at),
        Ok(NextUpdate {
            text: "2020-01-01 00:00:00 +02:00".to_string(),
            passed: true,
            days: 2,
            hours: 62,
            minutes: 3720,
            seconds: 223200,
        })
    );
    let before = now("2019-12-31 21:59:59", "2019-12-31 23:59:59");
    assert_eq!(
        read_next_update("2020-01-01T00:00:00+02:00", &before),
        Ok(NextUpdate {
            text: "2020-01-01 00:00:00 +02:00".to_string(),
            passed: false,
            days: 0,
            hours: 0,
            minutes: 0,
            seconds: -1,
        })
    );
    let said = chrono::DateTime::parse_from_rfc3339("2020-01-01").unwrap_err().to_string();
    assert_eq!(read_next_update("2020-01-01", &at), Err(said));
}

#[test]
fn sizes_have_binary_units_up_to_yib() {
    let units = ["", "KiB", "MiB", "GiB", "TiB", "PiB", "EiB", "ZiB", "YiB"];
    for (steps, unit) in units.iter().enumerate() {
        assert_eq!(size_suffix(steps as u32), Some(*unit));
    }
    assert_eq!(size_suffix(9), None);
    assert_eq!(size_suffix(u32::MAX), None);
}
