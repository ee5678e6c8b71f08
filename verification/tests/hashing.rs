use bevy_playground_server::hash::hash_source;
use bevy_playground_server::source_id::to_decimal;
use bevy_playground_server::source_id::SourceHash;
use std::hash::Hasher;

#[test]
fn matches_reference_fnv_implementation() {
    for source in ["", "a", "fn main(){}", "let x = 1;\nlet y = 2;\n", "émoji ☃"] {
        let mut reference = fnv::FnvHasher::default();
        reference.write(source.as_bytes());
        assert_eq!(hash_source(source), reference.finish());
    }
}

#[test]
fn hash_of_empty_source_is_offset_basis() {
    assert_eq!(hash_source(""), 0xcbf2_9ce4_8422_2325);
}

#[test]
fn hash_is_stable_across_runs() {
    // Fixed expected values: equality here must hold in every process run.
    assert_eq!(hash_source("fn main(){}"), 8416942539958729049);
    assert_eq!(hash_source("a"), 12638187200555641996);
}

#[test]
fn equal_sources_hash_equal() {
    let s1 = String::from("fn main() { println!(\"hi\"); }");
    let s2 = s1.clone();
    assert_eq!(hash_source(&s1), hash_source(&s2));
}

#[test]
fn to_decimal_renders_exact_digits() {
    assert_eq!(to_decimal(0), "0");
    assert_eq!(to_decimal(7), "7");
    assert_eq!(to_decimal(10), "10");
    assert_eq!(to_decimal(8416942539958729049), "8416942539958729049");
    assert_eq!(to_decimal(u64::MAX), "18446744073709551615");
}

#[test]
fn issued_identifier_round_trips_through_validation() {
    let id = SourceHash::of_source("fn main(){}");
    assert_eq!(id.as_str(), "8416942539958729049");
    let parsed = SourceHash::parse(id.as_str()).unwrap();
    assert_eq!(parsed.as_str(), id.as_str());
}
