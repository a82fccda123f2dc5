//! The window and screen tools: which window or display to capture, and
//! what to answer once the capture is made.

use vstd::prelude::*;
use crate::content::outcome_view;
use crate::content::Content;
use crate::content::ContentView;
use crate::content::Role;
use crate::content::ToolError;
use crate::content::ToolErrorView;
use crate::decimal::decimal;
use crate::editor::PRIORITY_SUPPLEMENTARY;
use crate::lines::joined;
use crate::params::number_param;
use crate::params::text_param;
use crate::params::ParamsView;
use crate::params::ToolParams;
use crate::text::string_views;

verus! {

/// The standard base64 encoding, with padding, of `bytes`.
pub uninterp spec fn base64_standard(bytes: Seq<u8>) -> Seq<char>;

/// The most bytes that can be encoded: the encoding, a third longer, must
/// fit the address space.
pub const MAX_IMAGE_BYTES: usize = usize::MAX / 2;

/// `Engine::encode` of the `base64` crate, on its engine `STANDARD`. The
/// crate panics where the length of the encoding cannot be counted; such
/// input is left out.
#[verifier::external_body]
fn encode_base64(bytes: &Vec<u8>) -> (r: String)
    requires
        bytes@.len() <= MAX_IMAGE_BYTES,
    ensures
        r@ == base64_standard(bytes@),
{
    base64::Engine::encode(&base64::engine::general_purpose::STANDARD, bytes)
}

/// What is to be captured.
#[derive(Debug)]
pub enum CaptureTarget {
    /// The window with this title.
    Window(String),
    /// The display with this number; 0 is the main display.
    Display(u64),
}

/// The mathematical model of a `CaptureTarget`.
pub enum CaptureTargetView {
    Window(Seq<char>),
    Display(nat),
}

impl View for CaptureTarget {
    type V = CaptureTargetView;

    open spec fn view(&self) -> CaptureTargetView {
        match self {
            CaptureTarget::Window(title) => CaptureTargetView::Window(title@),
            CaptureTarget::Display(index) => CaptureTargetView::Display(*index as nat),
        }
    }
}

/// What a call of the capture tool asks for: the window named by
/// `window_title` if there is one, else the display numbered by `display`,
/// else the main display.
pub open spec fn capture_target(params: ParamsView) -> CaptureTargetView {
    match text_param(params, "window_title"@) {
        Some(title) => CaptureTargetView::Window(title),
        None => match number_param(params, "display"@) {
            Some(index) => CaptureTargetView::Display(index),
            None => CaptureTargetView::Display(0),
        },
    }
}

/// Reads what a call of the capture tool asks for.
pub fn screen_capture_target(params: &ToolParams) -> (r: CaptureTarget)
    ensures
        r@ == capture_target(params@),
{
    match params.text("window_title") {
        Some(title) => CaptureTarget::Window(title.to_owned()),
        None => match params.number("display") {
            Some(index) => CaptureTarget::Display(index),
            None => CaptureTarget::Display(0),
        },
    }
}

/// The index of the first of `titles` that is `title`, or their number if
/// none is.
pub open spec fn first_titled(titles: Seq<Seq<char>>, title: Seq<char>) -> int
    decreases titles.len(),
{
    if titles.len() == 0 {
        0
    } else if titles[0] == title {
        0
    } else {
        1 + first_titled(titles.skip(1), title)
    }
}

/// What is said where no window has the title asked for.
pub open spec fn no_window_message(title: Seq<char>) -> Seq<char> {
    "No window found with title '"@ + title + "'"@
}

/// What is said where no display has the number asked for.
pub open spec fn no_display_message(index: nat, count: nat) -> Seq<char> {
    decimal(index) + " was not an available monitor, "@ + decimal(count) + " found."@
}

/// What is said where a window cannot be captured.
pub open spec fn window_failure(title: Seq<char>, cause: Seq<char>) -> Seq<char> {
    "Failed to capture window '"@ + title + "': "@ + cause
}

/// What is said where a display cannot be captured.
pub open spec fn display_failure(index: nat, cause: Seq<char>) -> Seq<char> {
    "Failed to capture display "@ + decimal(index) + ": "@ + cause
}

/// What is said where an image cannot be encoded as PNG.
pub open spec fn encode_failure(cause: Seq<char>) -> Seq<char> {
    "Failed to write image buffer "@ + cause
}

/// Why an image of too many bytes is not encoded.
pub open spec fn image_too_large_message() -> Seq<char> {
    "the image is too large"@
}

/// The titles of the windows, or nothing where they could not be listed.
pub open spec fn listed(titles: Option<Vec<String>>) -> Option<Seq<Seq<char>>> {
    match titles {
        Some(t) => Some(string_views(t@)),
        None => None,
    }
}

/// The window to capture: the index of the first window with the title
/// `title`.
pub open spec fn window_choice(titles: Option<Seq<Seq<char>>>, title: Seq<char>) -> Result<
    int,
    ToolErrorView,
> {
    match titles {
        None => Err(ToolErrorView::ExecutionError("Failed to list windows"@)),
        Some(all) => if first_titled(all, title) < all.len() {
            Ok(first_titled(all, title))
        } else {
            Err(ToolErrorView::ExecutionError(no_window_message(title)))
        },
    }
}

/// The model of an index that was chosen or refused.
pub open spec fn index_outcome(r: Result<usize, ToolError>) -> Result<int, ToolErrorView> {
    match r {
        Ok(i) => Ok(i as int),
        Err(e) => Err(e@),
    }
}

/// Chooses the window to capture among the windows with the titles
/// `titles`, `None` where they could not be listed.
pub fn choose_window(titles: &Option<Vec<String>>, title: &str) -> (r: Result<usize, ToolError>)
    ensures
        index_outcome(r) == window_choice(listed(*titles), title@),
{
    match titles {
        None => Err(ToolError::ExecutionError("Failed to list windows".to_owned())),
        Some(all) => {
            let mut i: usize = 0;
            assert(string_views(all@).skip(0) == string_views(all@));
            while i < all.len()
                invariant
                    i <= all.len(),
                    listed(*titles) == Some(string_views(all@)),
                    first_titled(string_views(all@), title@) == i + first_titled(
                        string_views(all@).skip(i as int),
                        title@,
                    ),
                decreases all.len() - i,
            {
                if crate::text::str_equal(all[i].as_str(), title) {
                    return Ok(i);
                }
                assert(string_views(all@).skip(i as int).skip(1) == string_views(all@).skip(
                    i + 1,
                ));
                i = i + 1;
            }
            Err(
                ToolError::ExecutionError(
                    crate::text::concat3("No window found with title '", title, "'"),
                ),
            )
        },
    }
}

/// Whether the display numbered `index` can be captured, given how many
/// displays there are, `None` where they could not be counted.
pub open spec fn display_choice(count: Option<nat>, index: nat) -> Result<(), ToolErrorView> {
    match count {
        None => Err(ToolErrorView::ExecutionError("Failed to access monitors"@)),
        Some(n) => if index < n {
            Ok(())
        } else {
            Err(ToolErrorView::ExecutionError(no_display_message(index, n)))
        },
    }
}

/// The model of a count that may be missing.
pub open spec fn counted(count: Option<usize>) -> Option<nat> {
    match count {
        Some(n) => Some(n as nat),
        None => None,
    }
}

/// The model of a decision to go on or to refuse.
pub open spec fn decision(r: Result<(), ToolError>) -> Result<(), ToolErrorView> {
    match r {
        Ok(_) => Ok(()),
        Err(e) => Err(e@),
    }
}

/// Decides whether the display numbered `index` can be captured.
pub fn check_display(count: Option<usize>, index: u64) -> (r: Result<(), ToolError>)
    ensures
        decision(r) == display_choice(counted(count), index as nat),
{
    match count {
        None => Err(ToolError::ExecutionError("Failed to access monitors".to_owned())),
        Some(n) => {
            if index < n as u64 {
                Ok(())
            } else {
                let shown = crate::text::from_chars(&crate::decimal::decimal_chars(index as u128));
                let found = crate::text::from_chars(&crate::decimal::decimal_chars(n as u128));
                let mut message = crate::text::to_chars(shown.as_str());
                crate::text::append_str(&mut message, " was not an available monitor, ");
                crate::text::append_str(&mut message, found.as_str());
                crate::text::append_str(&mut message, " found.");
                Err(ToolError::ExecutionError(crate::text::from_chars(&message)))
            }
        },
    }
}

/// Why no image came of a capture.
#[derive(Debug)]
pub enum CaptureFailure {
    /// The window or display could not be captured.
    Capture(String),
    /// The image could not be encoded.
    Encode(String),
}

/// The mathematical model of a `CaptureFailure`.
pub enum CaptureFailureView {
    Capture(Seq<char>),
    Encode(Seq<char>),
}

/// The model of what a capture gave: the bytes of an image, or a failure.
pub open spec fn captured(r: Result<Vec<u8>, CaptureFailure>) -> Result<
    Seq<u8>,
    CaptureFailureView,
> {
    match r {
        Ok(bytes) => Ok(bytes@),
        Err(CaptureFailure::Capture(cause)) => Err(CaptureFailureView::Capture(cause@)),
        Err(CaptureFailure::Encode(cause)) => Err(CaptureFailureView::Encode(cause@)),
    }
}

/// The model of an encoded image, or of why there is none.
pub open spec fn encoded_view(r: Result<String, CaptureFailure>) -> Result<
    Seq<char>,
    CaptureFailureView,
> {
    match r {
        Ok(data) => Ok(data@),
        Err(CaptureFailure::Capture(cause)) => Err(CaptureFailureView::Capture(cause@)),
        Err(CaptureFailure::Encode(cause)) => Err(CaptureFailureView::Encode(cause@)),
    }
}

/// The image in base64, given its bytes or why there is none. An image of
/// more than `MAX_IMAGE_BYTES` bytes cannot be encoded.
pub open spec fn encoded(image: Result<Seq<u8>, CaptureFailureView>) -> Result<
    Seq<char>,
    CaptureFailureView,
> {
    match image {
        Err(e) => Err(e),
        Ok(bytes) => if bytes.len() > MAX_IMAGE_BYTES {
            Err(CaptureFailureView::Encode(image_too_large_message()))
        } else {
            Ok(base64_standard(bytes))
        },
    }
}

/// Encodes an image in base64, if there is one and it is not too large.
pub fn encode_image(image: Result<Vec<u8>, CaptureFailure>) -> (r: Result<String, CaptureFailure>)
    ensures
        encoded_view(r) == encoded(captured(image)),
{
    match image {
        Err(e) => Err(e),
        Ok(bytes) => {
            if bytes.len() > MAX_IMAGE_BYTES {
                Err(CaptureFailure::Encode("the image is too large".to_owned()))
            } else {
                Ok(encode_base64(&bytes))
            }
        },
    }
}

/// The answer of the capture tool, given the image in base64 or why there
/// is none: a note for the agent, and the image as a supplement for every
/// consumer.
pub open spec fn capture_reply(
    target: CaptureTargetView,
    data: Result<Seq<char>, CaptureFailureView>,
) -> Result<Seq<ContentView>, ToolErrorView> {
    match data {
        Err(CaptureFailureView::Capture(cause)) => Err(
            ToolErrorView::ExecutionError(
                match target {
                    CaptureTargetView::Window(title) => window_failure(title, cause),
                    CaptureTargetView::Display(index) => display_failure(index, cause),
                },
            ),
        ),
        Err(CaptureFailureView::Encode(cause)) => Err(
            ToolErrorView::ExecutionError(encode_failure(cause)),
        ),
        Ok(image) => Ok(
            seq![
                ContentView::text("Screenshot captured"@).only_for(Role::Assistant),
                ContentView::image(image, "image/png"@).ranked(PRIORITY_SUPPLEMENTARY as int),
            ],
        ),
    }
}

/// Answers a call of the capture tool once the capture has been made and
/// encoded, or could not be.
pub fn screen_capture(target: &CaptureTarget, data: Result<String, CaptureFailure>) -> (r: Result<
    Vec<Content>,
    ToolError,
>)
    ensures
        outcome_view(r) == capture_reply(target@, encoded_view(data)),
{
    match data {
        Err(CaptureFailure::Capture(cause)) => {
            let message = match target {
                CaptureTarget::Window(title) => crate::text::concat4(
                    "Failed to capture window '",
                    title.as_str(),
                    "': ",
                    cause.as_str(),
                ),
                CaptureTarget::Display(index) => {
                    let shown = crate::text::from_chars(
                        &crate::decimal::decimal_chars(*index as u128),
                    );
                    crate::text::concat4(
                        "Failed to capture display ",
                        shown.as_str(),
                        ": ",
                        cause.as_str(),
                    )
                },
            };
            Err(ToolError::ExecutionError(message))
        },
        Err(CaptureFailure::Encode(cause)) => Err(
            ToolError::ExecutionError(
                crate::text::concat2("Failed to write image buffer ", cause.as_str()),
            ),
        ),
        Ok(image) => Ok(
            crate::content::pair(
                Content::text("Screenshot captured".to_owned()).with_audience(Role::Assistant),
                Content::image(image, "image/png".to_owned()).with_priority(
                    PRIORITY_SUPPLEMENTARY,
                ),
            ),
        ),
    }
}

/// The answer of the window-listing tool: the titles, one to a line, for
/// the agent and again, as a supplement, for the operator.
pub open spec fn windows_reply(titles: Option<Seq<Seq<char>>>) -> Result<
    Seq<ContentView>,
    ToolErrorView,
> {
    match titles {
        None => Err(ToolErrorView::ExecutionError("Failed to list windows"@)),
        Some(all) => {
            let text = "Available windows:\n"@ + joined(all, "\n"@);
            Ok(
                seq![
                    ContentView::text(text).only_for(Role::Assistant),
                    ContentView::text(text).only_for(Role::User).ranked(
                        PRIORITY_SUPPLEMENTARY as int,
                    ),
                ],
            )
        },
    }
}

/// Answers a call of the window-listing tool once the windows have been
/// listed, or could not be.
pub fn list_windows(titles: &Option<Vec<String>>) -> (r: Result<Vec<Content>, ToolError>)
    ensures
        outcome_view(r) == windows_reply(listed(*titles)),
{
    match titles {
        None => Err(ToolError::ExecutionError("Failed to list windows".to_owned())),
        Some(all) => {
            let mut text = crate::text::to_chars("Available windows:\n");
            let mut i: usize = 0;
            while i < all.len()
                invariant
                    i <= all.len(),
                    text@ == "Available windows:\n"@ + joined(
                        string_views(all@).take(i as int),
                        "\n"@,
                    ),
                decreases all.len() - i,
            {
                let ghost sofar = string_views(all@).take(i as int);
                let ghost next = string_views(all@).take(i + 1);
                assert(next.drop_last() == sofar);
                if i > 0 {
                    crate::text::append_str(&mut text, "\n");
                }
                crate::text::append_str(&mut text, all[i].as_str());
                i = i + 1;
            }
            assert(string_views(all@).take(all.len() as int) == string_views(all@));
            let first = crate::text::from_chars(&text);
            let second = crate::text::from_chars(&text);
            Ok(
                crate::content::pair(
                    Content::text(first).with_audience(Role::Assistant),
                    Content::text(second).with_audience(Role::User).with_priority(
                        PRIORITY_SUPPLEMENTARY,
                    ),
                ),
            )
        },
    }
}

} // verus!
