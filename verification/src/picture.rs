//! The Daily Picture widget: the image request, the fetch lifecycle (one
//! download at a time, refetch on request), the panel title, and the choice
//! of the terminal graphics protocol.
use vstd::prelude::*;
use crate::panel::{accent, error, Color};
use crate::status::LoadingStatus;
use crate::text::{concat3, contains_seq, decimal, decimal_string, owned, str_concat, str_contains, str_eq};

verus! {

/// Width of the requested picture, in pixels.
pub const PICSUM_WIDTH_PX: u32 = 1200;

/// Height of the requested picture, in pixels.
pub const PICSUM_HEIGHT_PX: u32 = 800;

/// The URL of a random picture of the configured size.
pub open spec fn image_url_of() -> Seq<char> {
    "https://picsum.photos"@ + "/"@ + decimal(PICSUM_WIDTH_PX as nat) + "/"@ + decimal(
        PICSUM_HEIGHT_PX as nat,
    )
}

/// The URL of a random picture of the configured size.
pub fn image_url() -> (url: String)
    ensures
        url@ == image_url_of(),
{
    let a = concat3("https://picsum.photos", "/", decimal_string(PICSUM_WIDTH_PX as u128).as_str());
    concat3(a.as_str(), "/", decimal_string(PICSUM_HEIGHT_PX as u128).as_str())
}

/// The picture widget's state; `I` is the decoded image type.
#[derive(Debug)]
pub struct ImageState<I> {
    pub loading_status: LoadingStatus,
    pub pending_image: Option<I>,
    pub is_in_flight: bool,
    pub is_refetch_requested: bool,
}

/// Whether a download starts on this tick: none is running, and either a new
/// picture was asked for or none was ever fetched.
pub open spec fn download_due<I>(s: ImageState<I>) -> bool {
    !s.is_in_flight && (s.is_refetch_requested || s.loading_status is NotStarted)
}

impl<I> ImageState<I> {
    /// Nothing fetched yet.
    pub fn new() -> (s: ImageState<I>)
        ensures
            s.loading_status is NotStarted,
            s.pending_image is None,
            !s.is_in_flight,
            !s.is_refetch_requested,
    {
        ImageState {
            loading_status: LoadingStatus::NotStarted,
            pending_image: None,
            is_in_flight: false,
            is_refetch_requested: false,
        }
    }

    /// On each tick: starts a download when one is due and tells whether it
    /// did. The first download also marks the picture as loading.
    pub fn begin_download(&mut self) -> (started: bool)
        ensures
            started == download_due(*old(self)),
            started ==> final(self).is_in_flight && !final(self).is_refetch_requested,
            started && old(self).loading_status is NotStarted ==> final(self).loading_status is Loading,
            started && !(old(self).loading_status is NotStarted) ==> final(self).loading_status
                == old(self).loading_status,
            !started ==> *final(self) == *old(self),
            final(self).pending_image == old(self).pending_image,
    {
        let due = !self.is_in_flight && (self.is_refetch_requested
            || self.loading_status.is_not_started());
        if due {
            self.is_in_flight = true;
            self.is_refetch_requested = false;
            if self.loading_status.is_not_started() {
                self.loading_status = LoadingStatus::Loading;
            }
        }
        due
    }

    /// Asks for a new picture on the next tick.
    pub fn request_refetch(&mut self)
        ensures
            final(self).is_refetch_requested,
            final(self).is_in_flight == old(self).is_in_flight,
            final(self).loading_status == old(self).loading_status,
            final(self).pending_image == old(self).pending_image,
    {
        self.is_refetch_requested = true;
    }

    /// Records a failed download. A picture already shown stays; the error
    /// is shown only when there is none.
    pub fn record_error(&mut self, message: String)
        ensures
            !final(self).is_in_flight,
            old(self).loading_status is Loaded ==> final(self).loading_status is Loaded,
            !(old(self).loading_status is Loaded) ==> final(self).loading_status
                == LoadingStatus::Error(message),
            final(self).is_refetch_requested == old(self).is_refetch_requested,
            final(self).pending_image == old(self).pending_image,
    {
        self.is_in_flight = false;
        if !self.loading_status.is_loaded() {
            self.loading_status = LoadingStatus::Error(message);
        }
    }

    /// Takes a downloaded and decoded picture: it waits to be installed and
    /// the picture is loaded.
    pub fn install_image(&mut self, image: I)
        ensures
            final(self).pending_image == Some(image),
            !final(self).is_in_flight,
            final(self).loading_status is Loaded,
            final(self).is_refetch_requested == old(self).is_refetch_requested,
    {
        self.pending_image = Some(image);
        self.is_in_flight = false;
        self.loading_status = LoadingStatus::Loaded;
    }

    /// Hands over the picture waiting to be installed, if any.
    pub fn take_pending_image(&mut self) -> (image: Option<I>)
        ensures
            image == old(self).pending_image,
            final(self).pending_image is None,
            final(self).loading_status == old(self).loading_status,
            final(self).is_in_flight == old(self).is_in_flight,
            final(self).is_refetch_requested == old(self).is_refetch_requested,
    {
        self.pending_image.take()
    }
}

/// The picture type that `image` decodes into.
#[verifier::external_type_specification]
#[verifier::external_body]
pub struct ExDynamicImage(image::DynamicImage);

/// What decoding `bytes` with `image::load_from_memory` gives: `None` when
/// they decode, otherwise the decoder's error message.
pub uninterp spec fn decode_outcome(bytes: Seq<u8>) -> Option<Seq<char>>;

/// Calls `image::load_from_memory`, which guesses the format from the bytes
/// and decodes them, and prints a failure with `Display`.
///
/// Trusted: success, and the message of a failure, are `decode_outcome` of
/// the bytes; the decoded picture itself is not described.
#[verifier::external_body]
fn load_image(bytes: &[u8]) -> (r: Result<image::DynamicImage, String>)
    ensures
        match r {
            Ok(_) => decode_outcome(bytes@) is None,
            Err(m) => decode_outcome(bytes@) == Some(m@),
        },
{
    image::load_from_memory(bytes).map_err(|e| e.to_string())
}

impl ImageState<image::DynamicImage> {
    /// Takes the body of a finished download: the decoded picture waits to
    /// be installed, or the failed decode is recorded as an error.
    pub fn finish_download(&mut self, bytes: &[u8])
        ensures
            !final(self).is_in_flight,
            final(self).is_refetch_requested == old(self).is_refetch_requested,
            decode_outcome(bytes@) is None ==> final(self).loading_status is Loaded
                && final(self).pending_image is Some,
            decode_outcome(bytes@) matches Some(m) ==> {
                &&& final(self).pending_image == old(self).pending_image
                &&& old(self).loading_status is Loaded ==> final(self).loading_status is Loaded
                &&& !(old(self).loading_status is Loaded) ==> (final(self).loading_status matches LoadingStatus::Error(e)
                    && e@ == "failed to decode image: "@ + m)
            },
    {
        match load_image(bytes) {
            Ok(image) => self.install_image(image),
            Err(m) => self.record_error(str_concat("failed to decode image: ", m.as_str())),
        }
    }
}

/// A download never starts while another one runs.
pub proof fn lemma_one_download_at_a_time<I>(s: ImageState<I>)
    requires
        s.is_in_flight,
    ensures
        !download_due(s),
{
}

/// What the picture panel shows around the image.
#[derive(Clone, Debug)]
pub enum PicturePanel {
    /// The loaded picture in a frame with this title.
    Picture { title: String },
    /// A status panel: title and border color.
    Status { title: String, border: Color },
}

/// The hint under the picture.
pub open spec fn picture_hint() -> Seq<char> {
    "Shift+N - fetch a new image"@
}

/// The hint under the picture.
pub fn hint_text() -> (h: &'static str)
    ensures
        h@ == picture_hint(),
{
    "Shift+N - fetch a new image"
}

impl<I> ImageState<I> {
    /// What the picture panel shows around the image.
    pub fn panel(&self) -> (p: PicturePanel)
        ensures
            match self.loading_status {
                LoadingStatus::Loaded => p matches PicturePanel::Picture { title } && title@
                    == "\u{1F5BC}  Daily Picture"@,
                LoadingStatus::Error(e) => p matches PicturePanel::Status { title, border } && title@
                    == "\u{1F5BC}  Daily Picture - Error: "@ + e@ && border == error(),
                LoadingStatus::Loading => p matches PicturePanel::Status { title, border } && title@
                    == "\u{1F5BC}  Daily Picture - Loading..."@ && border == accent(),
                LoadingStatus::NotStarted => p matches PicturePanel::Status { title, border }
                    && title@ == "\u{1F5BC}  Daily Picture"@ && border == accent(),
            },
    {
        match &self.loading_status {
            LoadingStatus::Loaded => PicturePanel::Picture { title: owned("\u{1F5BC}  Daily Picture") },
            LoadingStatus::Error(e) => PicturePanel::Status {
                title: str_concat("\u{1F5BC}  Daily Picture - Error: ", e.as_str()),
                border: Color::Red,
            },
            LoadingStatus::Loading => PicturePanel::Status {
                title: owned("\u{1F5BC}  Daily Picture - Loading..."),
                border: Color::Cyan,
            },
            LoadingStatus::NotStarted => PicturePanel::Status {
                title: owned("\u{1F5BC}  Daily Picture"),
                border: Color::Cyan,
            },
        }
    }
}

/// A graphics protocol the image picker can be set to.
#[derive(Clone, Copy, Debug, PartialEq, Eq, Structural)]
pub enum ForcedProtocol {
    Kitty,
    Sixel,
    Iterm2,
}

/// How to build the image picker: plain half blocks, half blocks because the
/// setting names no known protocol, a query of the terminal with the
/// protocol then forced, or a query of the terminal alone.
#[derive(Clone, Copy, Debug, PartialEq, Eq, Structural)]
pub enum PickerPlan {
    Halfblocks,
    UnknownSetting,
    Force(ForcedProtocol),
    Detect,
}

/// `s` in lower case, as `str::to_lowercase` gives it (full Unicode case
/// mapping).
pub uninterp spec fn lower_cased(s: Seq<char>) -> Seq<char>;

/// Calls `str::to_lowercase`.
///
/// Trusted: the result is `lower_cased(s)`; the Unicode case mapping is not
/// restated.
#[verifier::external_body]
fn to_lower_case(s: &str) -> (r: String)
    ensures
        r@ == lower_cased(s@),
{
    s.to_lowercase()
}

/// The plan that a protocol setting, already in lower case, asks for; no
/// setting at all means detection.
pub open spec fn plan_of(setting: Option<Seq<char>>) -> PickerPlan {
    match setting {
        None => PickerPlan::Detect,
        Some(s) => if s == "halfblocks"@ || s == "halfblock"@ {
            PickerPlan::Halfblocks
        } else if s == "kitty"@ {
            PickerPlan::Force(ForcedProtocol::Kitty)
        } else if s == "sixel"@ {
            PickerPlan::Force(ForcedProtocol::Sixel)
        } else if s == "iterm2"@ || s == "iterm"@ {
            PickerPlan::Force(ForcedProtocol::Iterm2)
        } else if s == "auto"@ {
            PickerPlan::Detect
        } else {
            PickerPlan::UnknownSetting
        },
    }
}

/// The plan that the image-protocol setting asks for, its case ignored.
pub fn picker_plan(setting: Option<&str>) -> (p: PickerPlan)
    ensures
        p == plan_of(
            match setting {
                Some(s) => Some(lower_cased(s@)),
                None => None,
            },
        ),
{
    match setting {
        None => PickerPlan::Detect,
        Some(raw) => {
            let lowered = to_lower_case(raw);
            let s = lowered.as_str();
            if str_eq(s, "halfblocks") || str_eq(s, "halfblock") {
                PickerPlan::Halfblocks
            } else if str_eq(s, "kitty") {
                PickerPlan::Force(ForcedProtocol::Kitty)
            } else if str_eq(s, "sixel") {
                PickerPlan::Force(ForcedProtocol::Sixel)
            } else if str_eq(s, "iterm2") || str_eq(s, "iterm") {
                PickerPlan::Force(ForcedProtocol::Iterm2)
            } else if str_eq(s, "auto") {
                PickerPlan::Detect
            } else {
                PickerPlan::UnknownSetting
            }
        },
    }
}

/// Whether detection is skipped for half blocks: the VS Code terminal answers
/// the query but shows no images unless they were switched on.
pub fn detection_skipped(term_program: &str) -> (skip: bool)
    ensures
        skip == contains_seq(term_program@, "vscode"@),
{
    str_contains(term_program, "vscode")
}

/// The protocol forced after detection for terminals known to answer the
/// query misleadingly: iTerm2's for iTerm2, WezTerm and Warp, Kitty's for
/// Kitty and Ghostty; `None` keeps what the query found.
pub open spec fn terminal_protocol(
    term_program: Seq<char>,
    wezterm_executable_set: bool,
    kitty_window_set: bool,
) -> Option<ForcedProtocol> {
    if contains_seq(term_program, "iTerm"@) || contains_seq(term_program, "WezTerm"@)
        || wezterm_executable_set || contains_seq(term_program, "Warp"@) {
        Some(ForcedProtocol::Iterm2)
    } else if contains_seq(term_program, "kitty"@) || term_program == "ghostty"@
        || kitty_window_set {
        Some(ForcedProtocol::Kitty)
    } else {
        None
    }
}

/// The protocol forced after detection, from `TERM_PROGRAM` and whether
/// `WEZTERM_EXECUTABLE` and `KITTY_WINDOW_ID` are set.
pub fn forced_by_terminal(term_program: &str, wezterm_executable_set: bool, kitty_window_set: bool) -> (p: Option<ForcedProtocol>)
    ensures
        p == terminal_protocol(term_program@, wezterm_executable_set, kitty_window_set),
{
    if str_contains(term_program, "iTerm") || str_contains(term_program, "WezTerm")
        || wezterm_executable_set || str_contains(term_program, "Warp") {
        Some(ForcedProtocol::Iterm2)
    } else if str_contains(term_program, "kitty") || str_eq(term_program, "ghostty")
        || kitty_window_set {
        Some(ForcedProtocol::Kitty)
    } else {
        None
    }
}

} // verus!
