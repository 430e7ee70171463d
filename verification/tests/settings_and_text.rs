use takit::settings::Settings;
use takit::text::{chars_of, decimal_chars, find_seq, is_space_char, lines_of, rfind_char_in, split_on, str_trim};

fn s(v: &str) -> String {
    v.to_string()
}

#[test]
fn defaults_match_a_fresh_install() {
    let d = Settings::default();
    assert_eq!(d.download_dir, "");
    assert_eq!(d.default_mode, "video");
    assert_eq!(d.video_quality, "1080");
    assert_eq!(d.audio_format, "mp3");
    assert_eq!(d.concurrent, 3);
    assert!(d.embed_metadata);
    assert!(d.embed_thumbnail);
    assert!(!d.open_when_done);
    assert!(d.close_to_tray);
    assert_eq!(d.ytdlp_path, "");
    assert_eq!(d.ffmpeg_path, "");
}

#[test]
fn normalize_fills_blank_folder_and_clamps() {
    let mut st = Settings::default();
    st.download_dir = s("   ");
    st.default_mode = s("AUDIO");
    st.concurrent = 0;
    st.normalize(s("/home/me/Downloads/Takit"));
    assert_eq!(st.download_dir, "/home/me/Downloads/Takit");
    assert_eq!(st.default_mode, "video");
    assert_eq!(st.concurrent, 1);

    let mut st2 = Settings::default();
    st2.download_dir = s("/data");
    st2.default_mode = s("audio");
    st2.concurrent = 20;
    st2.normalize(s("/fallback"));
    assert_eq!(st2.download_dir, "/data");
    assert_eq!(st2.default_mode, "audio");
    assert_eq!(st2.concurrent, 8);
}

#[test]
fn normalize_twice_is_normalize_once() {
    let mut a = Settings::default();
    a.concurrent = 42;
    a.default_mode = s("tape");
    a.normalize(s("/x"));
    let once = (a.download_dir.clone(), a.default_mode.clone(), a.concurrent);
    a.normalize(s("/x"));
    assert_eq!((a.download_dir.clone(), a.default_mode.clone(), a.concurrent), once);
    assert_eq!(once, (s("/x"), s("video"), 8));
}

#[test]
fn download_slots_clamp() {
    let mut st = Settings::default();
    assert_eq!(st.download_slots(), 3);
    st.concurrent = 0;
    assert_eq!(st.download_slots(), 1);
    st.concurrent = 99;
    assert_eq!(st.download_slots(), 8);
}

#[test]
fn trim_removes_unicode_white_space() {
    assert_eq!(str_trim("\u{3000}\t a b \u{A0}\n"), "a b");
    assert_eq!(str_trim("   "), "");
    assert_eq!(str_trim("x"), "x");
}

#[test]
fn lines_follow_std() {
    let text = "one\r\ntwo\n\nthree\r";
    let got: Vec<String> = lines_of(&chars_of(text)).iter().map(|l| l.iter().collect()).collect();
    let want: Vec<String> = text.lines().map(|l| l.to_string()).collect();
    assert_eq!(got, want);
    assert!(lines_of(&chars_of("")).is_empty());
    assert_eq!(lines_of(&chars_of("a\n")).len(), 1);
}

#[test]
fn decimal_prints_like_display() {
    for n in [0u128, 7, 10, 99, 100, 1234567890123, u128::MAX] {
        assert_eq!(decimal_chars(n).iter().collect::<String>(), n.to_string());
    }
}


#[test]
fn defaults_only_need_a_folder() {
    let mut d = Settings::default();
    d.normalize(s("/fallback"));
    let fresh = Settings::default();
    assert_eq!(d.download_dir, "/fallback");
    assert_eq!(d.default_mode, fresh.default_mode);
    assert_eq!(d.concurrent, fresh.concurrent);
    assert_eq!(d.video_quality, fresh.video_quality);
    assert_eq!(d.audio_format, fresh.audio_format);
}

#[test]
fn white_space_matches_std() {
    for code in 0u32..0x3100 {
        if let Some(c) = char::from_u32(code) {
            assert_eq!(is_space_char(c), c.is_whitespace(), "{code:#x}");
        }
    }
}

#[test]
fn split_find_rfind_match_std() {
    for text in ["a|b||c", "", "|", "no bar", "x|"] {
        let got: Vec<String> = split_on(&chars_of(text), '|').iter().map(|p| p.iter().collect()).collect();
        let want: Vec<String> = text.split('|').map(|p| p.to_string()).collect();
        assert_eq!(got, want);
    }
    assert_eq!(find_seq(&chars_of("ab Destination: x"), &chars_of("Destination:")), Some(3));
    assert_eq!(find_seq(&chars_of("abc"), &chars_of("zz")), None);
    assert_eq!(rfind_char_in(&chars_of("a\"b\"c"), '"'), Some(3));
    assert_eq!(rfind_char_in(&chars_of("abc"), '"'), None);
}
