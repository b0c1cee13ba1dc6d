use daily_dashboard::picture::{
    detection_skipped, forced_by_terminal, picker_plan, ForcedProtocol, PickerPlan,
};
use daily_dashboard::input::{is_new_image_key, KeyCode, KeyModifiers, KeyPress};
use daily_dashboard::panel::Color;
use daily_dashboard::picture::{hint_text, image_url, ImageState, PicturePanel};
use daily_dashboard::status::LoadingStatus;

fn shift() -> KeyModifiers {
    KeyModifiers { shift: true, ..KeyModifiers::none() }
}

#[test]
fn image_url_builds_random_picsum_url() {
    assert_eq!(image_url(), "https://picsum.photos/1200/800");
}

#[test]
fn is_new_image_key_matches_shift_n() {
    // Shift+N produces the uppercase 'N' character.
    let key = KeyPress::new(KeyCode::Char('N'), shift());
    assert!(is_new_image_key(&key));
}

#[test]
fn is_new_image_key_matches_uppercase_n_without_modifier_flag() {
    // Some terminals report the uppercase char without an explicit SHIFT flag.
    let key = KeyPress::new(KeyCode::Char('N'), KeyModifiers::none());
    assert!(is_new_image_key(&key));
}

#[test]
fn is_new_image_key_rejects_plain_n() {
    let key = KeyPress::new(KeyCode::Char('n'), KeyModifiers::none());
    assert!(!is_new_image_key(&key));
}

#[test]
fn is_new_image_key_rejects_ctrl_n() {
    // Ctrl / Ctrl+Shift with N is reported as lowercase 'n', so it must not fire.
    let key = KeyPress::new(KeyCode::Char('n'), KeyModifiers { control: true, ..KeyModifiers::none() });
    assert!(!is_new_image_key(&key));
}

#[test]
fn is_new_image_key_rejects_non_n_key() {
    let key = KeyPress::new(KeyCode::Enter, shift());
    assert!(!is_new_image_key(&key));
}

#[test]
fn one_download_at_a_time() {
    let mut state: ImageState<u32> = ImageState::new();
    assert!(state.begin_download());
    assert_eq!(state.loading_status, LoadingStatus::Loading);
    assert!(state.is_in_flight);
    state.request_refetch();
    assert!(!state.begin_download());
    state.install_image(7);
    assert_eq!(state.loading_status, LoadingStatus::Loaded);
    assert!(state.begin_download());
    assert!(!state.begin_download());
    state.record_error("timeout".to_string());
    assert_eq!(state.loading_status, LoadingStatus::Loaded);
    assert!(!state.begin_download());
    assert_eq!(state.take_pending_image(), Some(7));
    assert_eq!(state.take_pending_image(), None);
}

#[test]
fn first_download_error_is_shown() {
    let mut state: ImageState<u32> = ImageState::new();
    assert!(state.begin_download());
    state.record_error("decode failed".to_string());
    assert_eq!(state.loading_status, LoadingStatus::Error("decode failed".to_string()));
    assert!(!state.begin_download());
    match state.panel() {
        PicturePanel::Status { title, border } => {
            assert_eq!(title, "\u{1F5BC}  Daily Picture - Error: decode failed");
            assert_eq!(border, Color::Red);
        }
        other => panic!("unexpected panel {other:?}"),
    }
}

#[test]
fn picture_panel_titles() {
    let mut state: ImageState<u32> = ImageState::new();
    assert!(matches!(state.panel(), PicturePanel::Status { title, border }
        if title == "\u{1F5BC}  Daily Picture" && border == Color::Cyan));
    state.begin_download();
    assert!(matches!(state.panel(), PicturePanel::Status { title, .. }
        if title == "\u{1F5BC}  Daily Picture - Loading..."));
    state.install_image(1);
    assert!(matches!(state.panel(), PicturePanel::Picture { title }
        if title == "\u{1F5BC}  Daily Picture"));
    assert_eq!(hint_text(), "Shift+N - fetch a new image");
}

#[test]
fn picker_plan_reads_the_setting_in_any_case() {
    assert_eq!(picker_plan(None), PickerPlan::Detect);
    assert_eq!(picker_plan(Some("auto")), PickerPlan::Detect);
    assert_eq!(picker_plan(Some("HalfBlocks")), PickerPlan::Halfblocks);
    assert_eq!(picker_plan(Some("halfblock")), PickerPlan::Halfblocks);
    assert_eq!(picker_plan(Some("KITTY")), PickerPlan::Force(ForcedProtocol::Kitty));
    assert_eq!(picker_plan(Some("sixel")), PickerPlan::Force(ForcedProtocol::Sixel));
    assert_eq!(picker_plan(Some("iTerm")), PickerPlan::Force(ForcedProtocol::Iterm2));
    assert_eq!(picker_plan(Some("iterm2")), PickerPlan::Force(ForcedProtocol::Iterm2));
    assert_eq!(picker_plan(Some("vt100")), PickerPlan::UnknownSetting);
    assert_eq!(picker_plan(Some(" kitty")), PickerPlan::UnknownSetting);
}

#[test]
fn terminal_program_corrects_detection() {
    assert!(detection_skipped("vscode"));
    assert!(!detection_skipped("iTerm.app"));
    assert_eq!(forced_by_terminal("iTerm.app", false, false), Some(ForcedProtocol::Iterm2));
    assert_eq!(forced_by_terminal("WezTerm", false, true), Some(ForcedProtocol::Iterm2));
    assert_eq!(forced_by_terminal("", true, false), Some(ForcedProtocol::Iterm2));
    assert_eq!(forced_by_terminal("WarpTerminal", false, false), Some(ForcedProtocol::Iterm2));
    assert_eq!(forced_by_terminal("xterm-kitty", false, false), Some(ForcedProtocol::Kitty));
    assert_eq!(forced_by_terminal("ghostty", false, false), Some(ForcedProtocol::Kitty));
    assert_eq!(forced_by_terminal("ghostty-1", false, false), None);
    assert_eq!(forced_by_terminal("Apple_Terminal", false, true), Some(ForcedProtocol::Kitty));
    assert_eq!(forced_by_terminal("Apple_Terminal", false, false), None);
}

fn png_bytes() -> Vec<u8> {
    let mut out = std::io::Cursor::new(Vec::new());
    image::DynamicImage::new_rgb8(2, 2)
        .write_to(&mut out, image::ImageFormat::Png)
        .unwrap();
    out.into_inner()
}

#[test]
fn finished_download_is_decoded_or_recorded() {
    let mut state: ImageState<image::DynamicImage> = ImageState::new();
    assert!(state.begin_download());
    state.finish_download(b"not an image");
    assert!(!state.is_in_flight);
    match &state.loading_status {
        LoadingStatus::Error(e) => assert!(e.starts_with("failed to decode image: "), "{e}"),
        other => panic!("unexpected status {other:?}"),
    }
    state.request_refetch();
    assert!(state.begin_download());
    state.finish_download(&png_bytes());
    assert_eq!(state.loading_status, LoadingStatus::Loaded);
    let image = state.take_pending_image().expect("decoded picture");
    assert_eq!(image.width(), 2);
    assert!(state.begin_download() == false);
    state.request_refetch();
    assert!(state.begin_download());
    state.finish_download(&[0xFF, 0xD8, 0x00]);
    assert_eq!(state.loading_status, LoadingStatus::Loaded);
}
