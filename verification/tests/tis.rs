use mlc_reader::tis::{CountryCode, RegionCode, SocietyCode, TerritoryCode};

#[test]
fn society_codes() {
    assert_eq!(SocietyCode::Ascap.code(), 10);
    assert_eq!(SocietyCode::Bmi.code(), 21);
    assert_eq!(SocietyCode::Socan.code(), 101);
    assert_eq!(SocietyCode::MusicMark.code(), 707);
    assert_eq!(SocietyCode::from_code(10), Some(SocietyCode::Ascap));
    assert_eq!(SocietyCode::from_code(0), Some(SocietyCode::Dp));
    assert_eq!(SocietyCode::from_code(100), None);
    assert_eq!(SocietyCode::from_code(211), None);
    assert_eq!(SocietyCode::from_code(9999), None);
}

#[test]
fn society_code_roundtrip_all() {
    let mut known = 0;
    for n in 0..=u16::MAX {
        if let Some(c) = SocietyCode::from_code(n) {
            assert_eq!(c.code(), n);
            known += 1;
        }
    }
    assert_eq!(known, 246);
}

#[test]
fn country_and_region_codes() {
    assert_eq!(CountryCode::Afghanistan.code(), 4);
    assert_eq!(CountryCode::Zambia.code(), 894);
    assert_eq!(CountryCode::from_code(4), Some(CountryCode::Afghanistan));
    assert_eq!(CountryCode::from_code(5), None);
    assert_eq!(RegionCode::World.code(), 2136);
    assert_eq!(RegionCode::from_code(2135), None);
    assert_eq!(RegionCode::from_code(3017), Some(RegionCode::SacemTerritories));
}

#[test]
fn territory_code_reads_country_before_region() {
    assert_eq!(TerritoryCode::from_code(36), Some(TerritoryCode::Country(CountryCode::Australia)));
    assert_eq!(TerritoryCode::from_code(2136), Some(TerritoryCode::Region(RegionCode::World)));
    assert_eq!(TerritoryCode::from_code(1), None);
    assert_eq!(TerritoryCode::Region(RegionCode::Europe).code(), 2120);
    assert_eq!(TerritoryCode::Country(CountryCode::Belgium).code(), 56);
}

#[test]
fn territory_code_roundtrip_all() {
    let mut countries = 0;
    let mut regions = 0;
    for n in 0..=u16::MAX {
        match TerritoryCode::from_code(n) {
            Some(t) => {
                assert_eq!(t.code(), n);
                match t {
                    TerritoryCode::Country(_) => countries += 1,
                    TerritoryCode::Region(_) => regions += 1,
                }
            }
            None => {}
        }
    }
    assert_eq!(countries, 201);
    assert_eq!(regions, 37);
}
