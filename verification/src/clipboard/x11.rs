//! The X11 clipboard, which is read and written with `xclip`.

use crate::clipboard::{
    image_sighting, optional_bytes, optional_item, plain_text_sighting, ClipboardItem,
    ClipboardItemView, Seen, SeenView, Sighting,
};
use crate::codec::{decode_lossy, lossy_text, png_signature, png_signature_text};
use crate::security::{bytes_hash, calculate_bytes_hash};
use vstd::prelude::*;
use vstd::utf8::{decode_utf8, encode_utf8, valid_utf8};

verus! {

/// Seconds after which an `xclip` that has not finished is killed: the owner of the selection may
/// never answer.
pub const XCLIP_TIMEOUT_SECS: u64 = 5;

/// Milliseconds between two looks at a running `xclip`.
pub const XCLIP_POLL_MS: u64 = 25;

/// The target under which images are transferred.
pub const IMAGE_TARGET: &'static str = "image/png";

/// The target under which texts are transferred.
pub const TEXT_TARGET: &'static str = "text/plain";

/// The error of a system without `xclip`.
#[derive(Debug, Clone, Copy, PartialEq, Eq, Structural)]
pub enum X11Error {
    XclipMissing,
}

/// What to do about a running `xclip`.
#[derive(Debug, Clone, Copy, PartialEq, Eq, Structural)]
pub enum WaitStep {
    /// It has exited.
    Exited,
    /// It has run too long: kill and reap it.
    Kill,
    /// Look again after [`XCLIP_POLL_MS`].
    Sleep,
}

/// What to do about a child process that has exited or not and has run for some time: its exit
/// counts even after the timeout.
pub fn wait_step(exited: bool, elapsed_ns: u128, timeout_ns: u128) -> (step: WaitStep)
    ensures
        step == (if exited {
            WaitStep::Exited
        } else if elapsed_ns >= timeout_ns {
            WaitStep::Kill
        } else {
            WaitStep::Sleep
        }),
{
    if exited {
        WaitStep::Exited
    } else if elapsed_ns >= timeout_ns {
        WaitStep::Kill
    } else {
        WaitStep::Sleep
    }
}

/// What came out of reading a target.
#[derive(Debug)]
pub enum TargetRead {
    Contents(Vec<u8>),
    /// The target is empty or not offered.
    Nothing,
    /// The owner of the selection did not answer in time.
    TimedOut,
}

/// What came out of reading a target: `success` is `None` for an `xclip` that was killed.
pub fn target_read(success: Option<bool>, bytes: Vec<u8>) -> (read: TargetRead)
    ensures
        match success {
            Some(success) => if success && bytes@.len() > 0 {
                read matches TargetRead::Contents(contents) && contents@ == bytes@
            } else {
                read is Nothing
            },
            None => read is TimedOut,
        },
{
    match success {
        Some(success) => if success && bytes.len() > 0 {
            TargetRead::Contents(bytes)
        } else {
            TargetRead::Nothing
        },
        None => TargetRead::TimedOut,
    }
}

/// Why a target could not be written.
#[derive(Debug, Clone, Copy, PartialEq, Eq, Structural)]
pub enum TargetWriteError {
    Failed,
    TimedOut,
}

/// What came out of writing a target: `success` is `None` for an `xclip` that was killed.
pub fn target_written(success: Option<bool>) -> (written: Result<(), TargetWriteError>)
    ensures
        written == (match success {
            Some(true) => Ok::<(), TargetWriteError>(()),
            Some(false) => Err::<(), TargetWriteError>(TargetWriteError::Failed),
            None => Err::<(), TargetWriteError>(TargetWriteError::TimedOut),
        }),
{
    match success {
        Some(true) => Ok(()),
        Some(false) => Err(TargetWriteError::Failed),
        None => Err(TargetWriteError::TimedOut),
    }
}

/// What to do next for a snapshot of the X11 clipboard.
#[derive(Debug)]
pub enum X11Step {
    /// Read [`TEXT_TARGET`].
    ReadText,
    /// The snapshot is complete.
    Done(ClipboardItem),
}

/// What is to be transferred to the X11 clipboard.
#[derive(Debug)]
pub struct TargetWrite {
    pub target: &'static str,
    pub bytes: Vec<u8>,
}

/// What an image on the clipboard leaves behind and hands out.
pub open spec fn x11_image_sighting(seen: SeenView, image: Option<Seq<u8>>) -> Sighting {
    match image {
        Some(png) => image_sighting(seen, png, bytes_hash(png)),
        None => Sighting { seen, item: None },
    }
}

/// What a text on the clipboard leaves behind and hands out.
pub open spec fn x11_text_sighting(seen: SeenView, text: Option<Seq<u8>>) -> Sighting {
    match text {
        Some(bytes) => plain_text_sighting(seen, lossy_text(bytes)),
        None => Sighting { seen, item: None },
    }
}

/// What a whole snapshot of a clipboard leaves behind and hands out: a new image, else a new text.
pub open spec fn x11_snapshot(
    seen: SeenView,
    image: Option<Seq<u8>>,
    text: Option<Seq<u8>>,
) -> Sighting {
    let first = x11_image_sighting(seen, image);
    if first.item is Some {
        first
    } else {
        x11_text_sighting(first.seen, text)
    }
}

/// What the X11 clipboard has handed out last.
#[derive(Debug)]
pub struct X11Backend {
    seen: Seen,
}

impl View for X11Backend {
    type V = SeenView;

    closed spec fn view(&self) -> SeenView {
        self.seen@
    }
}

impl X11Backend {
    /// A backend that has handed out nothing, where `xclip` could be started.
    pub fn new(xclip_started: bool) -> (backend: Result<Self, X11Error>)
        ensures
            if xclip_started {
                &&& backend matches Ok(backend)
                &&& backend@.text == Seq::<char>::empty()
                &&& backend@.image_hash == Seq::<char>::empty()
            } else {
                backend matches Err(error) && error == X11Error::XclipMissing
            },
    {
        if !xclip_started {
            return Err(X11Error::XclipMissing);
        }
        Ok(X11Backend { seen: Seen::new() })
    }

    /// The name of the backend.
    pub fn name(&self) -> (name: &'static str)
        ensures
            name@ == "x11"@,
    {
        "x11"
    }

    /// The first half of a snapshot: takes what [`IMAGE_TARGET`] holds. A new image is the
    /// snapshot, otherwise the text is to be read.
    pub fn image_read(&mut self, image: Option<Vec<u8>>) -> (step: X11Step)
        ensures
            ({
                let sighting = x11_image_sighting(old(self)@, optional_bytes(image));
                &&& final(self)@ == sighting.seen
                &&& match sighting.item {
                    Some(item) => step matches X11Step::Done(actual) && actual@ == item,
                    None => step is ReadText,
                }
            }),
            image matches Some(png) ==> bytes_hash(png@).len() == 64,
    {
        if let Some(png) = image {
            let hash = calculate_bytes_hash(&png);
            if let Some(item) = self.seen.take_image(png, hash) {
                return X11Step::Done(item);
            }
        }
        X11Step::ReadText
    }

    /// The second half of a snapshot: takes what [`TEXT_TARGET`] holds. The bytes of a PNG file are
    /// never handed out as a text, and UTF-8 is handed out as it stands.
    pub fn text_read(&mut self, text: Option<Vec<u8>>) -> (item: Option<ClipboardItem>)
        ensures
            x11_text_sighting(old(self)@, optional_bytes(text)) == (Sighting {
                seen: final(self)@,
                item: optional_item(item),
            }),
            text matches Some(bytes) ==> png_signature().is_prefix_of(bytes@) ==> item is None,
            text matches Some(bytes) ==> bytes@.len() > 0 ==> lossy_text(bytes@).len() > 0,
            text matches Some(bytes) ==> valid_utf8(bytes@) ==> lossy_text(bytes@) == decode_utf8(
                bytes@,
            ),
            text matches Some(bytes) ==> valid_utf8(bytes@) ==> optional_item(item)
                == plain_text_sighting(old(self)@, decode_utf8(bytes@)).item,
    {
        match text {
            Some(bytes) => {
                let text = decode_lossy(&bytes);
                self.seen.take_plain_text(text)
            },
            None => None,
        }
    }

    /// A whole snapshot of a clipboard whose targets hold `image` and `text`. The text counts only
    /// where there is no new image.
    pub fn read_snapshot(&mut self, image: Option<Vec<u8>>, text: Option<Vec<u8>>) -> (item: Option<
        ClipboardItem,
    >)
        ensures
            x11_snapshot(old(self)@, optional_bytes(image), optional_bytes(text)) == (Sighting {
                seen: final(self)@,
                item: optional_item(item),
            }),
            image matches Some(png) ==> bytes_hash(png@).len() == 64,
            x11_image_sighting(old(self)@, optional_bytes(image)).item is None ==> (
            text matches Some(bytes) ==> bytes@.len() > 0 ==> lossy_text(bytes@).len() > 0),
            x11_image_sighting(old(self)@, optional_bytes(image)).item is None ==> (
            text matches Some(bytes) ==> valid_utf8(bytes@) ==> lossy_text(bytes@) == decode_utf8(
                bytes@,
            )),
            x11_image_sighting(old(self)@, optional_bytes(image)).item is None ==> (
            text matches Some(bytes) ==> png_signature().is_prefix_of(bytes@) ==> item is None),
    {
        match self.image_read(image) {
            X11Step::Done(item) => Some(item),
            X11Step::ReadText => self.text_read(text),
        }
    }

    /// What is transferred for an item; file paths have no place on this clipboard.
    pub fn write_request(item: ClipboardItem) -> (request: Option<TargetWrite>)
        ensures
            match item@ {
                ClipboardItemView::Text(text) => {
                    &&& request matches Some(request)
                    &&& request.target@ == "text/plain"@
                    &&& request.bytes@ == encode_utf8(text)
                },
                ClipboardItemView::ImagePng(png) => {
                    &&& request matches Some(request)
                    &&& request.target@ == "image/png"@
                    &&& request.bytes@ == png
                },
                ClipboardItemView::FilePath(_) => request is None,
            },
    {
        match item {
            ClipboardItem::Text(text) => Some(
                TargetWrite { target: TEXT_TARGET, bytes: text.as_str().as_bytes_vec() },
            ),
            ClipboardItem::ImagePng(bytes) => Some(TargetWrite { target: IMAGE_TARGET, bytes }),
            ClipboardItem::FilePath(_) => None,
        }
    }
}

/// What so many snapshots of a clipboard that does not change leave behind.
pub open spec fn x11_seen_after(
    seen: SeenView,
    image: Option<Seq<u8>>,
    text: Option<Seq<u8>>,
    count: nat,
) -> SeenView
    decreases count,
{
    if count == 0 {
        seen
    } else {
        x11_snapshot(x11_seen_after(seen, image, text, (count - 1) as nat), image, text).seen
    }
}

/// A clipboard that does not change is handed out once: a fresh backend hands out the image first,
/// byte for byte, then the text, and nothing from then on. That a hash has 64 digits, and that some
/// text comes of some bytes, is what `read_snapshot` ensures.
pub proof fn unchanged_clipboard_is_handed_out_once(
    fresh: SeenView,
    image: Seq<u8>,
    text: Seq<u8>,
    count: nat,
)
    requires
        fresh.text.len() == 0,
        fresh.image_hash.len() == 0,
        bytes_hash(image).len() == 64,
        lossy_text(text).len() > 0,
        !png_signature_text().is_prefix_of(lossy_text(text)),
    ensures
        ({
            let seen = x11_seen_after(fresh, Some(image), Some(text), count);
            x11_snapshot(seen, Some(image), Some(text)).item == (if count == 0 {
                Some(ClipboardItemView::ImagePng(image))
            } else if count == 1 {
                Some(ClipboardItemView::Text(lossy_text(text)))
            } else {
                None
            })
        }),
        count == 1 ==> x11_seen_after(fresh, Some(image), Some(text), count) == (SeenView {
            text: fresh.text,
            image_hash: bytes_hash(image),
        }),
        count >= 2 ==> x11_seen_after(fresh, Some(image), Some(text), count) == (SeenView {
            text: lossy_text(text),
            image_hash: bytes_hash(image),
        }),
    decreases count,
{
    if count > 0 {
        unchanged_clipboard_is_handed_out_once(fresh, image, text, (count - 1) as nat);
    }
}

} // verus!
