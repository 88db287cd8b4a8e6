use tagged_codec::codec::{decode, encode, EncodedForm, Video};
use tagged_codec::registry::{kind_from_label, label_for, Avi, Mp4};

#[test]
fn encode_mp4_record() {
    let record = Video::<Mp4>::new("my video 1".to_string());
    let form = encode(&record);
    assert_eq!(form.tag, "Mp4");
    assert_eq!(form.name, "my video 1");
}

#[test]
fn encode_avi_record() {
    let record = Video::<Avi>::new("my video 2".to_string());
    let form = encode(&record);
    assert_eq!(form.tag, "Avi");
    assert_eq!(form.name, "my video 2");
}

#[test]
fn decode_matching_tag() {
    let form = EncodedForm { tag: "Avi".to_string(), name: "my video 2".to_string() };
    let record: Video<Avi> = decode(form).unwrap();
    assert_eq!(record, Video::<Avi>::new("my video 2".to_string()));
}

#[test]
fn decode_mismatched_tag() {
    let form = EncodedForm { tag: "Avi".to_string(), name: "my video 2".to_string() };
    let result: Result<Video<Mp4>, _> = decode(form);
    assert_eq!(result.unwrap_err().message(), "label mismatch");
}

#[test]
fn decode_unregistered_tag() {
    let form = EncodedForm { tag: "Mkv".to_string(), name: "x".to_string() };
    let result: Result<Video<Mp4>, _> = decode(form);
    assert!(result.is_err());
    let form = EncodedForm { tag: "Mkv".to_string(), name: "x".to_string() };
    let result: Result<Video<Avi>, _> = decode(form);
    assert!(result.is_err());
}

#[test]
fn round_trip_mp4() {
    let record = Video::<Mp4>::new("my video 1".to_string());
    let decoded: Video<Mp4> = decode(encode(&record)).unwrap();
    assert_eq!(decoded, record);
}

#[test]
fn round_trip_avi() {
    let record = Video::<Avi>::new("my video 2".to_string());
    let decoded: Video<Avi> = decode(encode(&record)).unwrap();
    assert_eq!(decoded, record);
}

#[test]
fn round_trip_empty_payload() {
    let record = Video::<Mp4>::new(String::new());
    let decoded: Video<Mp4> = decode(encode(&record)).unwrap();
    assert_eq!(decoded.name, "");
}

#[test]
fn tag_independent_of_payload() {
    let first = encode(&Video::<Mp4>::new("a".to_string()));
    let second = encode(&Video::<Mp4>::new("completely different".to_string()));
    assert_eq!(first.tag, second.tag);
    assert_eq!(first.tag, label_for::<Mp4>());
}

#[test]
fn canonical_labels() {
    assert_eq!(label_for::<Mp4>(), "Mp4");
    assert_eq!(label_for::<Avi>(), "Avi");
}

#[test]
fn validating_lookup_accepts_canonical_label() {
    assert!(kind_from_label::<Mp4>("Mp4").is_ok());
    assert!(kind_from_label::<Avi>("Avi").is_ok());
}

#[test]
fn validating_lookup_rejects_other_labels() {
    assert_eq!(kind_from_label::<Mp4>("Avi").unwrap_err().message(), "label mismatch");
    assert!(kind_from_label::<Mp4>("mp4").is_err());
    assert!(kind_from_label::<Mp4>("").is_err());
    assert!(kind_from_label::<Avi>("Mkv").is_err());
}

#[test]
fn payload_passed_through_verbatim() {
    let payload = "tag: \"Mp4\" {weird} \u{1F600}".to_string();
    let record = Video::<Avi>::new(payload.clone());
    let form = encode(&record);
    assert_eq!(form.name, payload);
    let decoded: Video<Avi> = decode(form).unwrap();
    assert_eq!(decoded.name, payload);
}

#[test]
fn parse_error_carries_message() {
    let e = tagged_codec::errors::ParseError::new("structural decode failure".to_string());
    assert_eq!(e.message(), "structural decode failure");
}
