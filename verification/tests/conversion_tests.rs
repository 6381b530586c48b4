use koji::decimal::{parse_u32, push_decimal, u32_to_string};
use koji::feature::from_poracle;
use koji::geometry::{GeoValue, PointStruct};
use koji::multi_struct::{
    to_multi_struct, to_multi_vec, to_point_array, to_poracle, to_single_struct, to_single_vec,
    to_struct,
};

fn ps(lat: u64, lon: u64) -> PointStruct {
    PointStruct { lat, lon }
}

fn sample() -> Vec<Vec<PointStruct>> {
    vec![vec![ps(1, 2), ps(3, 4)], vec![], vec![ps(5, 6)]]
}

#[test]
fn to_point_array_is_first_point() {
    assert_eq!(to_point_array(sample()), [1, 2]);
}

#[test]
fn to_struct_is_first_point() {
    let p = to_struct(sample());
    assert_eq!((p.lat, p.lon), (1, 2));
}

#[test]
fn to_multi_vec_converts_each_ring() {
    assert_eq!(to_multi_vec(sample()), vec![vec![[1, 2], [3, 4]], vec![], vec![[5, 6]]]);
}

#[test]
fn to_single_vec_flattens() {
    assert_eq!(to_single_vec(sample()), vec![[1, 2], [3, 4], [5, 6]]);
}

#[test]
fn to_single_struct_flattens() {
    let v: Vec<(u64, u64)> = to_single_struct(sample()).iter().map(|p| (p.lat, p.lon)).collect();
    assert_eq!(v, vec![(1, 2), (3, 4), (5, 6)]);
}

#[test]
fn flatten_then_convert_agrees() {
    let a = to_single_vec(sample());
    let b: Vec<[u64; 2]> = to_single_struct(sample()).iter().map(|p| [p.lat, p.lon]).collect();
    assert_eq!(a, b);
}

#[test]
fn to_multi_struct_is_identity() {
    let v = to_multi_struct(sample());
    assert_eq!(v.len(), 3);
    assert_eq!((v[2][0].lat, v[2][0].lon), (5, 6));
}

#[test]
fn to_poracle_round_trips_through_from_poracle() {
    let p = to_poracle(sample());
    assert!(p.path.is_none() && p.name.is_none() && p.id.is_none());
    assert_eq!(p.multipath.clone().unwrap(), to_multi_vec(sample()));
    let f = from_poracle(p);
    assert!(f.properties.is_none());
    match &f.geometry.unwrap().value {
        GeoValue::MultiPolygon(polys) => {
            assert_eq!(polys.len(), 3);
            assert_eq!(polys[0], vec![vec![vec![2, 1], vec![4, 3], vec![2, 1]]]);
            assert_eq!(polys[1], vec![Vec::<Vec<u64>>::new()]);
        }
        _ => panic!("expected multi-polygon"),
    }
}

#[test]
fn parse_u32_accepts_digits() {
    assert_eq!(parse_u32("0"), Some(0));
    assert_eq!(parse_u32("42"), Some(42));
    assert_eq!(parse_u32("007"), Some(7));
    assert_eq!(parse_u32("4294967295"), Some(4294967295));
}

#[test]
fn parse_u32_accepts_leading_plus() {
    assert_eq!(parse_u32("+7"), Some(7));
    assert_eq!(parse_u32("+"), None);
    assert_eq!(parse_u32("++7"), None);
}

#[test]
fn parse_u32_refuses_other_text() {
    assert_eq!(parse_u32(""), None);
    assert_eq!(parse_u32("-1"), None);
    assert_eq!(parse_u32("-0"), None);
    assert_eq!(parse_u32("12a"), None);
    assert_eq!(parse_u32(" 1"), None);
    assert_eq!(parse_u32("١٢"), None);
    assert_eq!(parse_u32("Downtown"), None);
}

#[test]
fn parse_u32_refuses_overflow() {
    assert_eq!(parse_u32("4294967296"), None);
    assert_eq!(parse_u32("99999999999999999999999"), None);
    assert_eq!(parse_u32("99999999999x"), None);
}

#[test]
fn parse_u32_agrees_with_std() {
    for s in ["0", "+0", "15", "+", "", "-3", "4294967295", "4294967296", "0x10", "1_000", "00042"] {
        assert_eq!(parse_u32(s), s.parse::<u32>().ok(), "input {:?}", s);
    }
}

#[test]
fn u32_to_string_writes_decimal() {
    assert_eq!(u32_to_string(0), "0");
    assert_eq!(u32_to_string(9), "9");
    assert_eq!(u32_to_string(10), "10");
    assert_eq!(u32_to_string(4294967295), "4294967295");
    for n in [1u32, 12, 305, 65536, 1_000_000] {
        assert_eq!(u32_to_string(n), n.to_string());
    }
}

#[test]
fn printed_numbers_read_back() {
    for n in [0u32, 1, 99, 100, 123456789, u32::MAX] {
        assert_eq!(parse_u32(&u32_to_string(n)), Some(n));
    }
}

#[test]
fn push_decimal_appends() {
    let mut s = "id=".to_string();
    push_decimal(&mut s, 250);
    assert_eq!(s, "id=250");
}
