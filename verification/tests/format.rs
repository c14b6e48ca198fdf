use aspeak::text::{decimal_string, signed_decimal_string, str_eq};
use aspeak::types::{AudioFormat, Container, FormatError, Role};

#[test]
fn every_table_entry_resolves_to_its_format() {
    let table: [(&str, i8, &str); 18] = [
        ("wav", -2, "riff-8khz-16bit-mono-pcm"),
        ("wav", -1, "riff-16khz-16bit-mono-pcm"),
        ("wav", 0, "riff-24khz-16bit-mono-pcm"),
        ("wav", 1, "riff-24khz-16bit-mono-pcm"),
        ("mp3", -4, "audio-16khz-32kbitrate-mono-mp3"),
        ("mp3", -3, "audio-16khz-64kbitrate-mono-mp3"),
        ("mp3", -2, "audio-16khz-128kbitrate-mono-mp3"),
        ("mp3", -1, "audio-24khz-48kbitrate-mono-mp3"),
        ("mp3", 0, "audio-24khz-96kbitrate-mono-mp3"),
        ("mp3", 1, "audio-24khz-160kbitrate-mono-mp3"),
        ("mp3", 2, "audio-48khz-96kbitrate-mono-mp3"),
        ("mp3", 3, "audio-48khz-192kbitrate-mono-mp3"),
        ("ogg", -1, "ogg-16khz-16bit-mono-opus"),
        ("ogg", 0, "ogg-24khz-16bit-mono-opus"),
        ("ogg", 1, "ogg-48khz-16bit-mono-opus"),
        ("webm", -1, "webm-16khz-16bit-mono-opus"),
        ("webm", 0, "webm-24khz-16bit-mono-opus"),
        ("webm", 1, "webm-24khz-16bit-24kbps-mono-opus"),
    ];
    for (container, quality, name) in table {
        for use_closest in [false, true] {
            let format = AudioFormat::from_container_and_quality(container, quality, use_closest);
            assert_eq!(format.unwrap().as_str(), name);
        }
    }
}

#[test]
fn quality_out_of_range_takes_the_nearest_end_when_asked() {
    let closest = |container, quality| {
        AudioFormat::from_container_and_quality(container, quality, true).unwrap()
    };
    assert_eq!(closest("wav", -3), AudioFormat::Riff8Khz16BitMonoPcm);
    assert_eq!(closest("wav", -128), AudioFormat::Riff8Khz16BitMonoPcm);
    assert_eq!(closest("wav", 2), AudioFormat::Riff24Khz16BitMonoPcm);
    assert_eq!(closest("mp3", -5), AudioFormat::Audio16Khz32KBitRateMonoMp3);
    assert_eq!(closest("mp3", 127), AudioFormat::Audio48Khz192KBitRateMonoMp3);
    assert_eq!(closest("ogg", 2), AudioFormat::Ogg48Khz16BitMonoOpus);
    assert_eq!(closest("webm", -2), AudioFormat::Webm16Khz16BitMonoOpus);
}

#[test]
fn quality_out_of_range_is_an_error_unless_the_nearest_is_asked_for() {
    assert_eq!(
        AudioFormat::from_container_and_quality("ogg", 2, false),
        Err(FormatError::InvalidQuality { container: "ogg".to_string(), quality: 2 })
    );
    assert_eq!(
        AudioFormat::from_container_and_quality("mp3", -5, false),
        Err(FormatError::InvalidQuality { container: "mp3".to_string(), quality: -5 })
    );
}

#[test]
fn unknown_container_is_an_error_whatever_else_is_asked() {
    for use_closest in [false, true] {
        assert_eq!(
            AudioFormat::from_container_and_quality("flac", 0, use_closest),
            Err(FormatError::UnknownContainer { container: "flac".to_string() })
        );
        assert_eq!(
            AudioFormat::from_container_and_quality("WAV", 0, use_closest),
            Err(FormatError::UnknownContainer { container: "WAV".to_string() })
        );
    }
}

#[test]
fn containers_and_their_ranges_are_listed() {
    let all = Container::all();
    assert_eq!(all, vec![Container::Wav, Container::Mp3, Container::Ogg, Container::Webm]);
    let names: Vec<&str> = all.iter().map(Container::as_str).collect();
    assert_eq!(names, vec!["wav", "mp3", "ogg", "webm"]);
    for container in &all {
        assert_eq!(Container::from_name(container.as_str()), Some(*container));
    }
    assert_eq!(Container::from_name(""), None);
    assert_eq!(Container::from_name("Wav"), None);
    assert_eq!(Container::Wav.quality_range(), (-2, 1));
    assert_eq!(Container::Mp3.quality_range(), (-4, 3));
    assert_eq!(Container::Ogg.quality_range(), (-1, 1));
    assert_eq!(Container::Webm.quality_range(), (-1, 1));
}

#[test]
fn table_holds_a_format_for_each_quality_of_the_range_only() {
    for container in Container::all() {
        let (least, greatest) = container.quality_range();
        for quality in i8::MIN..=i8::MAX {
            let inside = least <= quality && quality <= greatest;
            assert_eq!(container.format(quality).is_some(), inside);
        }
    }
    assert_eq!(Container::Mp3.format(-4), Some(AudioFormat::Audio16Khz32KBitRateMonoMp3));
    assert_eq!(Container::Webm.format(1), Some(AudioFormat::Webm24Khz16Bit24KbpsMonoOpus));
}

#[test]
fn formats_are_found_by_their_names() {
    let all = AudioFormat::all();
    assert_eq!(all.len(), 36);
    for format in &all {
        assert_eq!(AudioFormat::from_name(format.as_str()), Some(*format));
    }
    assert_eq!(all[0], AudioFormat::AmrWb16000Hz);
    assert_eq!(all[35], AudioFormat::Webm24Khz16BitMonoOpus);
    assert_eq!(AudioFormat::from_name("riff-8khz-8bit-mono-alow"), Some(AudioFormat::Riff8Khz8BitMonoALaw));
    assert_eq!(AudioFormat::from_name("riff-8khz-8bit-mono-alaw"), None);
    assert_eq!(AudioFormat::from_name(""), None);
    assert_eq!(AudioFormat::default(), AudioFormat::Riff24Khz16BitMonoPcm);
}

#[test]
fn roles_are_named_as_they_are_written() {
    assert_eq!(Role::Girl.as_str(), "Girl");
    assert_eq!(Role::YoungAdultFemale.as_str(), "YoungAdultFemale");
    assert_eq!(Role::SeniorMale.as_str(), "SeniorMale");
}

#[test]
fn numbers_are_written_in_decimal() {
    assert_eq!(decimal_string(0), "0");
    assert_eq!(decimal_string(7), "7");
    assert_eq!(decimal_string(10), "10");
    assert_eq!(decimal_string(1006), "1006");
    assert_eq!(decimal_string(65535), "65535");
}

#[test]
fn strings_are_equal_when_their_characters_are() {
    assert!(str_eq("", ""));
    assert!(str_eq("\u{e9}t\u{e9}", "\u{e9}t\u{e9}"));
    assert!(!str_eq("wav", "wav "));
    assert!(!str_eq("wav", "waV"));
}

#[test]
fn signed_numbers_are_written_with_a_minus_only() {
    assert_eq!(signed_decimal_string(0), "0");
    assert_eq!(signed_decimal_string(127), "127");
    assert_eq!(signed_decimal_string(-1), "-1");
    assert_eq!(signed_decimal_string(-128), "-128");
}
