use aspeak::errors::SsmlError;
use aspeak::ssml::{check_options, degree_string, escape_into, interpolate_ssml, TextOptions};
use aspeak::types::Role;

const HEAD: &str = "<speak xmlns=\"http://www.w3.org/2001/10/synthesis\" xmlns:mstts=\"http://www.w3.org/2001/mstts\" xmlns:emo=\"http://www.w3.org/2009/10/emotionml\" version=\"1.0\" xml:lang=\"en-US\">";

fn plain(voice: &str) -> TextOptions {
    TextOptions {
        voice: voice.to_string(),
        pitch: None,
        rate: None,
        style: None,
        role: None,
        style_degree: None,
    }
}

#[test]
fn markup_characters_are_written_as_entities() {
    let mut out = String::from("x");
    escape_into("a&b<c>d\"e'f \u{e9}", &mut out);
    assert_eq!(out, "xa&amp;b&lt;c&gt;d&quot;e&apos;f \u{e9}");
    escape_into("", &mut out);
    assert_eq!(out, "xa&amp;b&lt;c&gt;d&quot;e&apos;f \u{e9}");
    let mut twice = String::new();
    escape_into("&amp;", &mut twice);
    assert_eq!(twice, "&amp;amp;");
}

#[test]
fn plain_text_is_wrapped_in_voice_and_prosody() {
    let document = interpolate_ssml("Hello, world!", &plain("en-US-JennyNeural")).unwrap();
    assert_eq!(
        document,
        format!("{HEAD}<voice name=\"en-US-JennyNeural\"><prosody>Hello, world!</prosody></voice></speak>")
    );
}

#[test]
fn options_become_attributes_in_their_places() {
    let options = TextOptions {
        voice: "zh-CN-XiaoxiaoNeural".to_string(),
        pitch: Some("+10%".to_string()),
        rate: Some("-5%".to_string()),
        style: Some("cheerful".to_string()),
        role: Some(Role::YoungAdultFemale),
        style_degree: Some(150),
    };
    let document = interpolate_ssml("\u{4f60}\u{597d}", &options).unwrap();
    assert_eq!(
        document,
        format!("{HEAD}<voice name=\"zh-CN-XiaoxiaoNeural\"><mstts:express-as style=\"cheerful\" styledegree=\"1.50\" role=\"YoungAdultFemale\"><prosody pitch=\"+10%\" rate=\"-5%\">\u{4f60}\u{597d}</prosody></mstts:express-as></voice></speak>")
    );
    let styled = TextOptions { role: None, style_degree: None, pitch: None, ..options };
    assert_eq!(
        interpolate_ssml("x", &styled).unwrap(),
        format!("{HEAD}<voice name=\"zh-CN-XiaoxiaoNeural\"><mstts:express-as style=\"cheerful\"><prosody rate=\"-5%\">x</prosody></mstts:express-as></voice></speak>")
    );
}

#[test]
fn what_the_caller_supplies_cannot_change_the_structure() {
    let options = TextOptions {
        pitch: Some("\"><evil/>".to_string()),
        ..plain("v\" onload=\"x")
    };
    let document = interpolate_ssml("</prosody><break/>", &options).unwrap();
    assert_eq!(
        document,
        format!("{HEAD}<voice name=\"v&quot; onload=&quot;x\"><prosody pitch=\"&quot;&gt;&lt;evil/&gt;\">&lt;/prosody&gt;&lt;break/&gt;</prosody></voice></speak>")
    );
}

#[test]
fn style_degree_and_role_need_a_style() {
    let degree = TextOptions { style_degree: Some(100), ..plain("v") };
    assert_eq!(interpolate_ssml("x", &degree), Err(SsmlError::StyleDegreeWithoutStyle));
    let role = TextOptions { role: Some(Role::Boy), ..plain("v") };
    assert_eq!(interpolate_ssml("x", &role), Err(SsmlError::RoleWithoutStyle));
    let both = TextOptions { role: Some(Role::Boy), style_degree: Some(0), ..plain("v") };
    assert_eq!(check_options(&both), Err(SsmlError::StyleDegreeWithoutStyle));
    assert_eq!(check_options(&plain("v")), Ok(()));
}

#[test]
fn style_degree_lies_between_a_hundredth_and_two() {
    let with = |degree| TextOptions {
        style: Some("sad".to_string()),
        style_degree: Some(degree),
        ..plain("v")
    };
    assert_eq!(check_options(&with(1)), Ok(()));
    assert_eq!(check_options(&with(200)), Ok(()));
    assert_eq!(
        check_options(&with(0)),
        Err(SsmlError::StyleDegreeOutOfRange { hundredths: 0 })
    );
    assert_eq!(
        interpolate_ssml("x", &with(201)),
        Err(SsmlError::StyleDegreeOutOfRange { hundredths: 201 })
    );
    assert!(interpolate_ssml("x", &with(1)).unwrap().contains(" styledegree=\"0.01\""));
    assert!(interpolate_ssml("x", &with(200)).unwrap().contains(" styledegree=\"2.00\""));
}

#[test]
fn style_degree_is_written_with_two_decimals() {
    assert_eq!(degree_string(1), "0.01");
    assert_eq!(degree_string(50), "0.50");
    assert_eq!(degree_string(105), "1.05");
    assert_eq!(degree_string(200), "2.00");
    assert_eq!(degree_string(65535), "655.35");
}
