//! Configuration parsing: block ranges, package references, URLs, and the
//! decimal text helpers underneath them.

use block_sink::checkpoint::{cursor_storage_key, CURSOR_TTL_SECONDS};
use block_sink::package::{
    normalize_endpoint_url, parse_standard_package_and_version, registry_package_url,
    resolve_package_source, PackageRefError, PackageSource,
};
use block_sink::range::{read_block_range, ModuleInfo, RangeError};
use block_sink::sink::{block_key, BLOCK_RECORD_TTL_SECONDS};
use block_sink::textnum::{parse_i64_dec, parse_u64_dec, u64_to_dec};

fn modules() -> Vec<ModuleInfo> {
    vec![
        ModuleInfo {
            name: "map_blocks".to_string(),
            initial_block: 1000,
        },
        ModuleInfo {
            name: "store_stats".to_string(),
            initial_block: 2000,
        },
    ]
}

#[test]
fn range_defaults_to_initial_block_and_unbounded() {
    let r = read_block_range(&modules(), "map_blocks", "").unwrap();
    assert_eq!(r, (1000, 0));
}

#[test]
fn range_absolute_start_and_stop() {
    let r = read_block_range(&modules(), "map_blocks", "100:105").unwrap();
    assert_eq!(r, (100, 105));
}

#[test]
fn range_relative_start_and_stop() {
    // `+10` is relative to the module's initial block, the stop's `+5` to
    // the start.
    let r = read_block_range(&modules(), "map_blocks", "+10:+5").unwrap();
    assert_eq!(r, (1010, 1015));
}

#[test]
fn range_without_colon_is_a_stop() {
    let r = read_block_range(&modules(), "map_blocks", "500").unwrap();
    assert_eq!(r, (1000, 500));
}

#[test]
fn range_dash_stop_is_unbounded() {
    let r = read_block_range(&modules(), "store_stats", "50:-").unwrap();
    assert_eq!(r, (50, 0));
}

#[test]
fn range_negative_start() {
    let r = read_block_range(&modules(), "map_blocks", "-5:").unwrap();
    assert_eq!(r, (-5, 0));
}

#[test]
fn range_unknown_module_is_rejected() {
    let r = read_block_range(&modules(), "missing", "100:105");
    assert_eq!(r, Err(RangeError::ModuleNotFound));
}

#[test]
fn range_bad_start_is_rejected() {
    let r = read_block_range(&modules(), "map_blocks", "xyz:105");
    assert_eq!(r, Err(RangeError::InvalidStart));
}

#[test]
fn range_bad_stop_is_rejected() {
    let r = read_block_range(&modules(), "map_blocks", "100:abc");
    assert_eq!(r, Err(RangeError::InvalidStop));
    let r = read_block_range(&modules(), "map_blocks", "abc");
    assert_eq!(r, Err(RangeError::InvalidStop));
}

#[test]
fn range_relative_stop_on_negative_start_overflows() {
    // A negative start reinterpreted as unsigned leaves no room for a
    // relative stop.
    let r = read_block_range(&modules(), "map_blocks", "-5:+10");
    assert_eq!(r, Err(RangeError::InvalidStop));
}

#[test]
fn package_name_alone_resolves_to_latest() {
    let r = parse_standard_package_and_version("eosio_common").unwrap();
    assert_eq!(r, ("eosio_common".to_string(), "latest".to_string()));
}

#[test]
fn package_empty_or_latest_version_resolves_to_latest() {
    let r = parse_standard_package_and_version("pkg@").unwrap();
    assert_eq!(r, ("pkg".to_string(), "latest".to_string()));
    let r = parse_standard_package_and_version("pkg@latest").unwrap();
    assert_eq!(r, ("pkg".to_string(), "latest".to_string()));
}

#[test]
fn package_semver_versions_are_accepted() {
    let r = parse_standard_package_and_version("pkg@v1.2.3").unwrap();
    assert_eq!(r, ("pkg".to_string(), "v1.2.3".to_string()));
    let r = parse_standard_package_and_version("pkg@1.0.0-alpha+build5").unwrap();
    assert_eq!(r, ("pkg".to_string(), "1.0.0-alpha+build5".to_string()));
}

#[test]
fn package_bad_versions_are_rejected() {
    assert_eq!(
        parse_standard_package_and_version("pkg@notsemver"),
        Err(PackageRefError::InvalidVersion)
    );
    assert_eq!(
        parse_standard_package_and_version("pkg@1.2"),
        Err(PackageRefError::InvalidVersion)
    );
}

#[test]
fn package_two_at_signs_are_rejected() {
    assert_eq!(
        parse_standard_package_and_version("a@b@c"),
        Err(PackageRefError::MalformedReference)
    );
}

#[test]
fn package_bad_names_are_rejected() {
    assert_eq!(
        parse_standard_package_and_version("9pkg"),
        Err(PackageRefError::InvalidName)
    );
    assert_eq!(
        parse_standard_package_and_version(""),
        Err(PackageRefError::InvalidName)
    );
    let long = "a".repeat(65);
    assert_eq!(
        parse_standard_package_and_version(&long),
        Err(PackageRefError::InvalidName)
    );
    let max = "a".repeat(64);
    assert!(parse_standard_package_and_version(&max).is_ok());
}

#[test]
fn registry_reference_resolves_to_registry_url() {
    let s = resolve_package_source("pkg@v1.0.0");
    assert_eq!(
        s,
        PackageSource::RegistryUrl("https://spkg.io/v1/packages/pkg/v1.0.0".to_string())
    );
    assert_eq!(
        registry_package_url("pkg", "latest"),
        "https://spkg.io/v1/packages/pkg/latest"
    );
}

#[test]
fn url_and_file_references_pass_through() {
    let s = resolve_package_source("https://example.com/pkg.spkg");
    assert_eq!(
        s,
        PackageSource::HttpUrl("https://example.com/pkg.spkg".to_string())
    );
    let s = resolve_package_source("./local/pkg.spkg");
    assert_eq!(s, PackageSource::LocalFile("./local/pkg.spkg".to_string()));
}

#[test]
fn endpoint_url_gets_https_scheme() {
    assert_eq!(
        normalize_endpoint_url("eos.firehose.example:443"),
        "https://eos.firehose.example:443"
    );
    assert_eq!(
        normalize_endpoint_url("http://insecure.example"),
        "http://insecure.example"
    );
    assert_eq!(
        normalize_endpoint_url("https://eos.firehose.example:443"),
        "https://eos.firehose.example:443"
    );
}

#[test]
fn decimal_rendering_is_exact() {
    assert_eq!(u64_to_dec(0), "0");
    assert_eq!(u64_to_dec(7), "7");
    assert_eq!(u64_to_dec(12345), "12345");
    assert_eq!(u64_to_dec(u64::MAX), "18446744073709551615");
}

#[test]
fn decimal_parsing_is_exact() {
    assert_eq!(parse_u64_dec("0"), Some(0));
    assert_eq!(parse_u64_dec("00123"), Some(123));
    assert_eq!(parse_u64_dec("18446744073709551615"), Some(u64::MAX));
    assert_eq!(parse_u64_dec("18446744073709551616"), None);
    assert_eq!(parse_u64_dec(""), None);
    assert_eq!(parse_u64_dec("12a"), None);
    assert_eq!(parse_i64_dec("-42"), Some(-42));
    assert_eq!(parse_i64_dec("9223372036854775807"), Some(i64::MAX));
    assert_eq!(parse_i64_dec("-9223372036854775808"), Some(i64::MIN));
    assert_eq!(parse_i64_dec("-9223372036854775809"), None);
    assert_eq!(parse_i64_dec("9223372036854775808"), None);
}

#[test]
fn cache_keys_and_ttls() {
    assert_eq!(block_key(104), "eos:simple:104");
    assert_eq!(block_key(0), "eos:simple:0");
    assert_eq!(cursor_storage_key(), "lootbox:eos:cursor");
    assert_eq!(CURSOR_TTL_SECONDS, 7 * 24 * 60 * 60);
    assert_eq!(BLOCK_RECORD_TTL_SECONDS, 15);
}
