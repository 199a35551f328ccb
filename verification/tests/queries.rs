use mlc_reader::config::is_local_db_url;
use mlc_reader::migration::utils::{InsertProgress, BATCH_SIZE};
use mlc_reader::mutations::parties::{
    party_from_row, plan_party_search, society_from_column, unsigned_writer_from_row, PartyInput,
    PartyKey, SearchError,
};
use mlc_reader::mutations::relations::{related_party_from_row, RelatedPartyInput};
use mlc_reader::mutations::works::{
    attach_groups, group_by_key, keep_last_by_key, work_ids_json, work_search_args,
    WorkSearchParams,
};
use mlc_reader::server::{latest_dir, DirEntryInfo};
use mlc_reader::tis::SocietyCode;
use mlc_reader::types::{IpiNameNum, Role};

fn accept_all(x: u64) -> Option<IpiNameNum> {
    Some(IpiNameNum(x))
}

fn accept_none(_: u64) -> Option<IpiNameNum> {
    None
}

#[test]
fn role_names() {
    assert_eq!(Role::Publisher.as_str(), "publisher");
    assert_eq!(Role::Writer.to_string(), "writer");
    assert_eq!(Role::from_str("writer"), Ok(Role::Writer));
    assert_eq!(Role::from_str("publisher"), Ok(Role::Publisher));
    assert_eq!(Role::from_str("both"), Err(()));
    assert_eq!(Role::from_str("Writer"), Err(()));
    for r in [Role::Publisher, Role::Writer] {
        assert_eq!(Role::from_str(r.as_str()), Ok(r));
    }
}

#[test]
fn party_input_from_text() {
    match PartyInput::from_text("123456789".to_string(), accept_all) {
        PartyInput::Ipi(i) => assert_eq!(i, IpiNameNum(123456789)),
        other => panic!("{other:?}"),
    }
    match PartyInput::from_text("123456789".to_string(), accept_none) {
        PartyInput::Name(n) => assert_eq!(n, "123456789"),
        other => panic!("{other:?}"),
    }
    match PartyInput::from_text("TAYLOR SWIFT".to_string(), accept_all) {
        PartyInput::Name(n) => assert_eq!(n, "TAYLOR SWIFT"),
        other => panic!("{other:?}"),
    }
    match RelatedPartyInput::from_text("77".to_string(), accept_all) {
        RelatedPartyInput::Ipi(i) => assert_eq!(i.0, 77),
        other => panic!("{other:?}"),
    }
    match RelatedPartyInput::from_text("P-77".to_string(), accept_all) {
        RelatedPartyInput::Id(s) => assert_eq!(s, "P-77"),
        other => panic!("{other:?}"),
    }
}

#[test]
fn party_search_plans() {
    let p = plan_party_search(PartyInput::Name("AC/DC".to_string()), Some(Role::Writer), 30)
        .unwrap();
    match p.key {
        PartyKey::Name(n) => assert_eq!(n, "AC DC"),
        other => panic!("{other:?}"),
    }
    assert_eq!(p.role.as_deref(), Some("writer"));
    assert_eq!(p.limit, 30);

    let p = plan_party_search(PartyInput::Ipi(IpiNameNum(555)), None, 10).unwrap();
    match p.key {
        PartyKey::Ipi(v) => assert_eq!(v, 555),
        other => panic!("{other:?}"),
    }
    assert_eq!(p.role, None);

    let e = plan_party_search(PartyInput::Name(String::new()), None, 10).unwrap_err();
    assert_eq!(e, SearchError::EmptyName);
}

#[test]
fn party_rows() {
    let p = party_from_row(
        5,
        Some("JOHN".to_string()),
        "SMITH".to_string(),
        Some(42),
        Some(10),
        Some("writer".to_string()),
        &accept_all,
    );
    assert_eq!(p.id, 5);
    assert_eq!(p.ipi_name_num, Some(IpiNameNum(42)));
    assert_eq!(p.pro, Some(SocietyCode::Ascap));
    assert_eq!(p.role, Some(Role::Writer));

    let q = party_from_row(6, None, "X".to_string(), Some(42), Some(100), Some("both".to_string()), &accept_none);
    assert_eq!(q.ipi_name_num, None);
    assert_eq!(q.pro, None);
    assert_eq!(q.role, None);

    // the society column keeps its low 16 bits
    assert_eq!(society_from_column(Some(65536 + 21)), Some(SocietyCode::Bmi));
    assert_eq!(society_from_column(None), None);

    let w = unsigned_writer_from_row(9, Some("A".to_string()), "B".to_string(), None, &accept_all);
    assert_eq!(w.ipi_name_num, None);
    assert_eq!(w.pro, None);
    assert_eq!(w.role, None);
}

#[test]
fn related_party_names_fall_back_to_full_name() {
    let p = related_party_from_row(
        1,
        Some(String::new()),
        Some("FULL NAME".to_string()),
        String::new(),
        None,
        Some(21),
        None,
        &accept_all,
    )
    .unwrap();
    assert_eq!(p.first_name, None);
    assert_eq!(p.last_name, "FULL NAME");
    assert_eq!(p.pro, Some(SocietyCode::Bmi));

    let q = related_party_from_row(2, Some("A".to_string()), None, String::new(), None, None, None, &accept_all)
        .unwrap();
    assert_eq!(q.first_name.as_deref(), Some("A"));
    assert_eq!(q.last_name, "");

    assert!(related_party_from_row(3, None, None, String::new(), None, None, None, &accept_all).is_none());
}

#[test]
fn work_search_arguments() {
    let q = WorkSearchParams {
        title: Some("Shake it off".to_string()),
        artist: Some("taylor swift".to_string()),
        party_ipi: Some(IpiNameNum(7)),
        limit: 10,
        offset: 3,
        ..WorkSearchParams::default()
    };
    let a = work_search_args(q);
    assert_eq!(a.title.as_deref(), Some("SHAKE IT OFF"));
    assert_eq!(a.artist.as_deref(), Some("TAYLOR SWIFT"));
    assert_eq!(a.party_ipi, Some(7));
    assert_eq!(a.limit, 10);
    assert_eq!(a.offset, 30);
    assert_eq!(a.iswc, None);
    assert_eq!(a.isrc, None);
}

#[test]
fn work_ids_as_json() {
    assert_eq!(work_ids_json(&[]), None);
    let ids = vec!["W1".to_string(), "W\"2".to_string()];
    assert_eq!(work_ids_json(&ids).as_deref(), Some("[\"W1\",\"W\\\"2\"]"));
    let odd = vec!["a\u{1}\n\\".to_string(), "\t\r\u{8}\u{c}/é".to_string()];
    assert_eq!(
        work_ids_json(&odd).as_deref(),
        Some("[\"a\\u0001\\n\\\\\",\"\\t\\r\\b\\f/é\"]")
    );
}

#[test]
fn grouping_rows_by_work() {
    let rows = vec![
        ("W1".to_string(), 1),
        ("W2".to_string(), 2),
        ("W1".to_string(), 3),
        ("W3".to_string(), 4),
        ("W1".to_string(), 5),
    ];
    let g = group_by_key(rows);
    assert_eq!(g.len(), 3);
    let find = |k: &str| g.iter().find(|(x, _)| x == k).map(|(_, v)| v.clone()).unwrap();
    assert_eq!(find("W1"), vec![1, 3, 5]);
    assert_eq!(find("W2"), vec![2]);
    assert_eq!(find("W3"), vec![4]);
    let total: usize = g.iter().map(|(_, v)| v.len()).sum();
    assert_eq!(total, 5);
}

#[test]
fn keeping_last_row_per_work() {
    let rows = vec![("A".to_string(), 1), ("B".to_string(), 2), ("A".to_string(), 3)];
    let k = keep_last_by_key(rows);
    assert_eq!(k.len(), 2);
    assert!(k.contains(&("A".to_string(), 3)));
    assert!(k.contains(&("B".to_string(), 2)));
}

#[test]
fn attaching_parties_to_works() {
    let works = vec![
        ("W1".to_string(), "first"),
        ("W2".to_string(), "second"),
        ("W1".to_string(), "again"),
    ];
    let groups = vec![("W1".to_string(), vec![10, 11]), ("W9".to_string(), vec![99])];
    let r = attach_groups(works, groups);
    assert_eq!(r, vec![("first", vec![10, 11]), ("second", vec![]), ("again", vec![])]);
}

#[test]
fn latest_dump_directory() {
    let d = |is_dir: bool, mtime: Option<u64>| DirEntryInfo { is_dir, mtime };
    assert_eq!(latest_dir(&[]), None);
    assert_eq!(latest_dir(&[d(false, Some(9))]), None);
    assert_eq!(latest_dir(&[d(true, Some(1)), d(true, Some(5)), d(false, Some(9)), d(true, Some(3))]), Some(1));
    assert_eq!(latest_dir(&[d(true, Some(5)), d(true, Some(5))]), Some(1));
    assert_eq!(latest_dir(&[d(true, Some(0)), d(true, None)]), Some(0));
    assert_eq!(latest_dir(&[d(true, None), d(true, None)]), Some(1));
    let v = vec![d(true, Some(5)), d(false, Some(7)), d(true, Some(5)), d(true, Some(2))];
    let expected = v
        .iter()
        .enumerate()
        .filter(|x| x.1.is_dir)
        .max_by_key(|x| x.1.mtime)
        .map(|x| x.0);
    assert_eq!(latest_dir(&v), expected);
}

#[test]
fn bulk_load_commits_every_batch() {
    let mut p = InsertProgress::new();
    let mut commits = 0u64;
    for _ in 0..(2 * BATCH_SIZE + 5) {
        if p.record_inserted() {
            commits += 1;
        }
    }
    assert_eq!(p.inserted(), 2 * BATCH_SIZE + 5);
    assert_eq!(commits, 2);
}

#[test]
fn roles_parse_through_from_str_trait() {
    assert_eq!("writer".parse::<Role>(), Ok(Role::Writer));
    assert_eq!("publisher".parse::<Role>(), Ok(Role::Publisher));
    assert_eq!("both".parse::<Role>(), Err(()));
    assert_eq!(
        "sub_publisher".parse::<mlc_reader::bwarm::share::PartyRole>(),
        Ok(mlc_reader::bwarm::share::PartyRole::SubPublisher)
    );
}

#[test]
fn local_database_urls() {
    assert!(is_local_db_url("file:./mlc.db"));
    assert!(is_local_db_url("file:"));
    assert!(!is_local_db_url("libsql://mlc.example.io"));
    assert!(!is_local_db_url("fil"));
    assert!(!is_local_db_url("FILE:./mlc.db"));
}

#[test]
fn work_search_by_track_or_iswc() {
    use_work_search(mlc_reader::mutations::works::WorkSearch::Track {
        title: "SONG".to_string(),
        artist: "ARTIST".to_string(),
    });
    use_work_search(mlc_reader::mutations::works::WorkSearch::Iswc("T-123.456.789-0".to_string()));
}

fn use_work_search(w: mlc_reader::mutations::works::WorkSearch) {
    match w {
        mlc_reader::mutations::works::WorkSearch::Track { title, artist } => {
            assert_eq!(title, "SONG");
            assert_eq!(artist, "ARTIST");
        }
        mlc_reader::mutations::works::WorkSearch::Iswc(s) => assert_eq!(s, "T-123.456.789-0"),
    }
}
