use mlc_reader::bwarm::party::Party;
use mlc_reader::bwarm::release::Release;
use mlc_reader::bwarm::resource::Resource;
use mlc_reader::bwarm::share::{PartyRole, Share};
use mlc_reader::bwarm::types::named_bool;
use mlc_reader::bwarm::work_resource::WorkResource;
use mlc_reader::bwarm::works::Work;
use mlc_reader::bwarm::RecordError;

fn row(fields: &[&str]) -> Vec<String> {
    fields.iter().map(|s| s.to_string()).collect()
}

#[test]
fn party_row_is_read_by_position() {
    let r = row(&[
        "1001", "0000000121", "123456789", "CISAC", "DP1", "JOHN SMITH", "JOHN", "SMITH", "x",
        "CONTACT", "a@b.c",
    ]);
    let p = Party::from_csv(&r).unwrap();
    assert_eq!(p.id, 1001);
    assert_eq!(p.isni.as_deref(), Some("0000000121"));
    assert_eq!(p.ipi, Some(123456789));
    assert_eq!(p.cisac_id.as_deref(), Some("CISAC"));
    assert_eq!(p.dpid.as_deref(), Some("DP1"));
    assert_eq!(p.full_name, "JOHN SMITH");
    assert_eq!(p.first_name.as_deref(), Some("JOHN"));
    assert_eq!(p.last_name.as_deref(), Some("SMITH"));
    assert_eq!(p.contact_name.as_deref(), Some("CONTACT"));
    assert_eq!(p.email.as_deref(), Some("a@b.c"));
}

#[test]
fn party_row_with_short_fields() {
    let p = Party::from_csv(&row(&["7", "", "", "", "", "NAME"])).unwrap();
    assert_eq!(p.ipi, None);
    assert_eq!(p.isni.as_deref(), Some(""));
    assert_eq!(p.first_name, None);
    assert_eq!(p.email, None);
}

#[test]
fn party_row_errors() {
    assert_eq!(Party::from_csv(&row(&[])).unwrap_err(), RecordError::MissingField(0));
    assert_eq!(Party::from_csv(&row(&["x1"])).unwrap_err(), RecordError::InvalidNumber(0));
    assert_eq!(Party::from_csv(&row(&["1", "a", "b"])).unwrap_err(), RecordError::MissingField(5));
}

#[test]
fn release_row() {
    let r = row(&["55", "x", "TITLE", "x", "x", "ARTIST", "x", "LABEL", "DISTRO", "1700000000"]);
    let rel = Release::from_csv(&r).unwrap();
    assert_eq!(rel.id, 55);
    assert_eq!(rel.title, "TITLE");
    assert_eq!(rel.artist_name, "ARTIST");
    assert_eq!(rel.label_name, "LABEL");
    assert_eq!(rel.distro_name, "DISTRO");
    assert_eq!(rel.release_date.as_deref(), Some("1700000000"));
    assert_eq!(Release::from_csv(&row(&["no"])).unwrap_err(), RecordError::InvalidNumber(0));
}

#[test]
fn resource_row() {
    let mut f = vec!["RES1", "SoundRecording", "USRC17607839", "SONG"];
    f.extend(["", "", "", "", "", "", ""]);
    f.push("900");
    f.extend(["", ""]);
    f.push("PROVIDER");
    let r = Resource::from_csv(&row(&f)).unwrap();
    assert_eq!(r.id, "RES1");
    assert_eq!(r.resource_type, "SoundRecording");
    assert_eq!(r.isrc.as_deref(), Some("USRC17607839"));
    assert_eq!(r.title, "SONG");
    assert_eq!(r.release_id, 900);
    assert_eq!(r.data_provider, "PROVIDER");
    f[11] = "-1";
    assert_eq!(Resource::from_csv(&row(&f)).unwrap_err(), RecordError::InvalidNumber(11));
}

#[test]
fn work_resource_row() {
    let w = WorkResource::from_csv(&row(&["12", "W1", "R1"])).unwrap();
    assert_eq!(w.id, 12);
    assert_eq!(w.work_id, "W1");
    assert_eq!(w.resource_id, "R1");
    assert_eq!(WorkResource::from_csv(&row(&[])).unwrap_err(), RecordError::MissingField(0));
    assert_eq!(WorkResource::from_csv(&row(&["a"])).unwrap_err(), RecordError::InvalidNumber(0));
    assert_eq!(WorkResource::from_csv(&row(&["1"])).unwrap_err(), RecordError::MissingField(1));
    assert_eq!(WorkResource::from_csv(&row(&["1", "W"])).unwrap_err(), RecordError::MissingField(2));
}

#[test]
fn share_row() {
    let r = row(&["S1", "W1", "42", "Composer", "50.5", "Performance", "x", "US", "S0"]);
    let s = Share::from_csv(&r).unwrap();
    assert_eq!(s.id, "S1");
    assert_eq!(s.work_id, "W1");
    assert_eq!(s.party_id, 42);
    assert_eq!(s.role, "Composer");
    assert_eq!(s.share.as_deref(), Some("50.5"));
    assert_eq!(s.rights_type.as_deref(), Some("Performance"));
    assert_eq!(s.territory, "US");
    assert_eq!(s.preceding_id.as_deref(), Some("S0"));
    let short = Share::from_csv(&row(&["S1", "W1", "42", "Composer", "", "", "", "US"])).unwrap();
    assert_eq!(short.preceding_id, None);
}

#[test]
fn share_row_errors() {
    assert_eq!(Share::from_csv(&row(&[])).unwrap_err(), RecordError::MissingField(0));
    assert_eq!(Share::from_csv(&row(&["S"])).unwrap_err(), RecordError::MissingField(1));
    assert_eq!(Share::from_csv(&row(&["S", "W"])).unwrap_err(), RecordError::MissingField(2));
    assert_eq!(Share::from_csv(&row(&["S", "W", "x"])).unwrap_err(), RecordError::InvalidNumber(2));
    assert_eq!(Share::from_csv(&row(&["S", "W", "1"])).unwrap_err(), RecordError::MissingField(3));
    assert_eq!(
        Share::from_csv(&row(&["S", "W", "1", "R", "", ""])).unwrap_err(),
        RecordError::MissingField(7)
    );
}

#[test]
fn work_row() {
    let r = row(&["W1", "T1234567890", "SONG", "", "", "", "180000", "TRUE", "", "FALSE", "77"]);
    let w = Work::from_csv(&r);
    assert_eq!(w.id, "W1");
    assert_eq!(w.iswc.as_deref(), Some("T1234567890"));
    assert_eq!(w.title, "SONG");
    assert_eq!(w.duration_text, "180000");
    assert!(w.in_dispute);
    assert!(!w.is_arrangement);
    assert_eq!(w.territory.as_deref(), Some(""));
    assert_eq!(w.alt_id, Some(77));
    let r2 = row(&["W2", "", "S", "", "", "", "", "true", "", "TRUE", ""]);
    let w2 = Work::from_csv(&r2);
    assert!(!w2.in_dispute);
    assert!(w2.is_arrangement);
    assert_eq!(w2.alt_id, None);
}

#[test]
fn dump_file_names() {
    assert_eq!(Party::filename(), "parties.tsv");
    assert_eq!(Release::filename(), "releases.tsv");
    assert_eq!(Resource::filename(), "resources.tsv");
    assert_eq!(Share::filename(), "musicalworkrightshares.tsv");
    assert_eq!(Work::filename(), "musicalworks.tsv");
    assert_eq!(WorkResource::filename(), "workresourcelinks.tsv");
}

#[test]
fn named_bools() {
    assert_eq!(named_bool("TRUE"), Ok(true));
    assert_eq!(named_bool("FALSE"), Ok(false));
    assert_eq!(named_bool("true"), Err(()));
    assert_eq!(named_bool(""), Err(()));
}

#[test]
fn party_role_names_roundtrip() {
    let all = [
        PartyRole::OriginalPublisher,
        PartyRole::RightsAdministrator,
        PartyRole::Composer,
        PartyRole::SubPublisher,
        PartyRole::SubstitutedPublisher,
        PartyRole::Arranger,
        PartyRole::ComposerLyricist,
        PartyRole::Lyricist,
        PartyRole::SubLyricist,
        PartyRole::Translator,
        PartyRole::Adapter,
        PartyRole::SubArranger,
    ];
    for r in all {
        assert_eq!(PartyRole::from_str(r.as_str()), Ok(r));
    }
    assert_eq!(PartyRole::OriginalPublisher.as_str(), "original_publisher");
    assert_eq!(PartyRole::ComposerLyricist.as_str(), "composer_lyricist");
    assert_eq!(PartyRole::from_str("Composer"), Err(()));
}

#[test]
fn short_rows_are_padded_to_the_headers() {
    let mut f = row(&["a", "b"]);
    mlc_reader::bwarm::pad_fields(&mut f, 5);
    assert_eq!(f, row(&["a", "b", "", "", ""]));
    let mut g = row(&["a", "b", "c"]);
    mlc_reader::bwarm::pad_fields(&mut g, 2);
    assert_eq!(g, row(&["a", "b", "c"]));
}
