use netstream::flv::{FlvField, FlvValue, FlvVariable};
use netstream::metadata::{
    name_is, StreamMetadata, DURATION, FRAME_RATE, HEIGHT, ON_META_DATA, VIDEO_CODEC_ID, WIDTH,
};
use netstream::number::Number;

fn number(value: f64) -> Number {
    Number::from_bits(value.to_bits())
}

fn field(name: &str, value: f64) -> FlvField {
    FlvField { name: name.as_bytes().to_vec(), number: Some(number(value)) }
}

fn other_field(name: &str) -> FlvField {
    FlvField { name: name.as_bytes().to_vec(), number: None }
}

fn variable(name: &str, data: FlvValue) -> FlvVariable {
    FlvVariable { name: name.as_bytes().to_vec(), data }
}

fn all_five() -> Vec<FlvField> {
    vec![
        field("duration", 10.5),
        field("width", 320.0),
        field("height", 240.0),
        field("videocodecid", 2.0),
        field("framerate", 25.0),
    ]
}

#[test]
fn names_are_the_bytes_of_their_words() {
    assert_eq!(&ON_META_DATA[..], b"onMetaData");
    assert_eq!(&WIDTH[..], b"width");
    assert_eq!(&HEIGHT[..], b"height");
    assert_eq!(&VIDEO_CODEC_ID[..], b"videocodecid");
    assert_eq!(&FRAME_RATE[..], b"framerate");
    assert_eq!(&DURATION[..], b"duration");
}

#[test]
fn name_is_compares_every_byte() {
    assert!(name_is(&b"width".to_vec(), &WIDTH));
    assert!(!name_is(&b"widtH".to_vec(), &WIDTH));
    assert!(!name_is(&b"Width".to_vec(), &WIDTH));
    assert!(!name_is(&b"widt".to_vec(), &WIDTH));
    assert!(!name_is(&b"widths".to_vec(), &WIDTH));
    assert!(!name_is(&Vec::new(), &WIDTH));
    assert!(name_is(&b"onMetaData".to_vec(), &ON_META_DATA));
    assert!(!name_is(&b"onmetadata".to_vec(), &ON_META_DATA));
}

#[test]
fn empty_description_gives_nothing() {
    let metadata = StreamMetadata::empty();
    assert_eq!(metadata.width, None);
    assert_eq!(metadata.height, None);
    assert_eq!(metadata.video_codec_id, None);
    assert_eq!(metadata.frame_rate, None);
    assert_eq!(metadata.duration, None);
    assert_eq!(StreamMetadata::read(&Vec::new()), StreamMetadata::empty());
}

#[test]
fn read_takes_the_five_numbers_of_an_object() {
    let vars = vec![variable("onMetaData", FlvValue::Object(all_five()))];
    let metadata = StreamMetadata::read(&vars);
    assert_eq!(metadata.width, Some(number(320.0)));
    assert_eq!(metadata.height, Some(number(240.0)));
    assert_eq!(metadata.video_codec_id, Some(number(2.0)));
    assert_eq!(metadata.frame_rate, Some(number(25.0)));
    assert_eq!(metadata.duration, Some(number(10.5)));
}

#[test]
fn read_takes_arrays_as_it_takes_objects() {
    let from_object = StreamMetadata::read(&vec![variable("onMetaData", FlvValue::Object(all_five()))]);
    let from_ecma = StreamMetadata::read(&vec![variable("onMetaData", FlvValue::EcmaArray(all_five()))]);
    let from_strict = StreamMetadata::read(&vec![variable("onMetaData", FlvValue::StrictArray(all_five()))]);
    assert_eq!(from_ecma, from_object);
    assert_eq!(from_strict, from_object);
}

#[test]
fn read_ignores_variables_of_other_names_and_kinds() {
    let vars = vec![
        variable("onCuePoint", FlvValue::Object(all_five())),
        variable("onMetaData", FlvValue::Number(number(1.0))),
        variable("onMetaData", FlvValue::Other),
        variable("onmetadata", FlvValue::EcmaArray(all_five())),
    ];
    assert_eq!(StreamMetadata::read(&vars), StreamMetadata::empty());
}

#[test]
fn read_ignores_members_that_are_no_numbers_or_have_other_names() {
    let members = vec![
        other_field("width"),
        field("Width", 1.0),
        field("height", 240.0),
        other_field("height"),
        field("audiocodecid", 2.0),
        field("", 3.0),
    ];
    let metadata = StreamMetadata::read(&vec![variable("onMetaData", FlvValue::EcmaArray(members))]);
    assert_eq!(metadata.width, None);
    assert_eq!(metadata.height, Some(number(240.0)));
    assert_eq!(metadata.video_codec_id, None);
    assert_eq!(metadata.frame_rate, None);
    assert_eq!(metadata.duration, None);
}

#[test]
fn read_keeps_the_last_number_of_each_name() {
    let vars = vec![
        variable("onMetaData", FlvValue::Object(vec![field("width", 100.0), field("width", 200.0)])),
        variable("other", FlvValue::Object(vec![field("width", 999.0)])),
        variable(
            "onMetaData",
            FlvValue::StrictArray(vec![field("height", 50.0), field("width", 300.0), other_field("width")]),
        ),
        variable("onMetaData", FlvValue::EcmaArray(vec![field("duration", 4.0)])),
    ];
    let metadata = StreamMetadata::read(&vars);
    assert_eq!(metadata.width, Some(number(300.0)));
    assert_eq!(metadata.height, Some(number(50.0)));
    assert_eq!(metadata.duration, Some(number(4.0)));
    assert_eq!(metadata.frame_rate, None);
    assert_eq!(metadata.video_codec_id, None);
}
