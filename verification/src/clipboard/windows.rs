//! The Windows clipboard, which also carries lists of copied files.

use crate::clipboard::{
    canonical_file_hash_outcome, canonical_image_hash_from_png, image_sighting, optional_bytes,
    optional_item, png_outcome, text_sighting, ClipboardItem, ClipboardItemView, ImageFailure,
    RawImage, Seen, SeenView, Sighting,
};
use crate::codec::{decode_image, file_pixels};
use crate::security::bytes_hash;
use crate::text::{optional_text, same_bytes};
use std::collections::VecDeque;
use vstd::prelude::*;

verus! {

/// The format under which a device independent bitmap lies on the clipboard.
pub const DIB_FORMAT: u32 = 8;

/// What to do next for a snapshot.
#[derive(Debug)]
pub enum WindowsStep {
    /// Ask for the text.
    ReadText,
    /// Ask for the list of copied files.
    ReadFiles,
    /// Ask for the image in the "PNG" format, which keeps transparency.
    ReadPng,
    /// Ask for the image as a bitmap.
    ReadImage,
    /// The snapshot is complete.
    Done(Option<ClipboardItem>),
}

/// What is to be put onto the clipboard.
#[derive(Debug)]
pub enum WindowsWrite {
    Text(String),
    /// The bitmap that goes with the PNG file.
    Image { dib: Vec<u8> },
    Nothing,
}

/// The paths of a list.
pub open spec fn paths_view(paths: Seq<Vec<u8>>) -> Seq<Seq<u8>> {
    paths.map_values(|path: Vec<u8>| path@)
}

/// What the Windows clipboard has handed out last, and the copied files that are still to come.
pub struct WindowsView {
    pub seen: SeenView,
    pub last_files: Seq<Seq<u8>>,
    pub pending_files: Seq<Seq<u8>>,
}

/// What a look at the Windows clipboard leaves behind, and what it hands out: `None` where the next
/// format is to be read.
pub struct WindowsSighting {
    pub state: WindowsView,
    pub outcome: Option<Option<ClipboardItemView>>,
}

impl WindowsView {
    /// The next pending file comes first.
    pub open spec fn begun(self) -> WindowsSighting {
        if self.pending_files.len() > 0 {
            WindowsSighting {
                state: WindowsView { pending_files: self.pending_files.drop_first(), ..self },
                outcome: Some(Some(ClipboardItemView::FilePath(self.pending_files.first()))),
            }
        } else {
            WindowsSighting { state: self, outcome: None }
        }
    }

    /// A new text is handed out.
    pub open spec fn text_seen(self, text: Option<Seq<char>>) -> WindowsSighting {
        match text {
            Some(text) => {
                let sighting = text_sighting(self.seen, text);
                WindowsSighting {
                    state: WindowsView { seen: sighting.seen, ..self },
                    outcome: if sighting.item is Some {
                        Some(sighting.item)
                    } else {
                        None
                    },
                }
            },
            None => WindowsSighting { state: self, outcome: None },
        }
    }

    /// Of a new list of files the first is handed out, and the others are pending.
    pub open spec fn files_seen(self, paths: Option<Seq<Seq<u8>>>) -> WindowsSighting {
        match paths {
            Some(paths) => if paths.len() > 0 && paths != self.last_files {
                WindowsSighting {
                    state: WindowsView {
                        last_files: paths,
                        pending_files: paths.drop_first(),
                        ..self
                    },
                    outcome: Some(Some(ClipboardItemView::FilePath(paths.first()))),
                }
            } else {
                WindowsSighting { state: self, outcome: None }
            },
            None => WindowsSighting { state: self, outcome: None },
        }
    }

    /// A PNG file that can be read decides the snapshot: it is handed out if its image is new.
    pub open spec fn png_seen(self, png: Option<Seq<u8>>) -> WindowsSighting {
        match png {
            Some(png) => match canonical_file_hash_outcome(png) {
                Ok(hash) => if png.len() > 0 {
                    let sighting = image_sighting(self.seen, png, hash);
                    WindowsSighting {
                        state: WindowsView { seen: sighting.seen, ..self },
                        outcome: Some(sighting.item),
                    }
                } else {
                    WindowsSighting { state: self, outcome: None }
                },
                Err(_) => WindowsSighting { state: self, outcome: None },
            },
            None => WindowsSighting { state: self, outcome: None },
        }
    }
}

/// What a Windows clipboard offers: the bitmap as the PNG file that is made of it.
pub struct WindowsContents {
    pub text: Option<Seq<char>>,
    pub files: Option<Seq<Seq<u8>>>,
    pub png: Option<Seq<u8>>,
    pub bitmap: Option<Seq<u8>>,
}

impl WindowsView {
    /// A new bitmap is handed out.
    pub open spec fn bitmap_seen(self, bitmap: Option<Seq<u8>>) -> WindowsSighting {
        match bitmap {
            Some(png) => {
                let sighting = image_sighting(self.seen, png, bytes_hash(png));
                WindowsSighting {
                    state: WindowsView { seen: sighting.seen, ..self },
                    outcome: Some(sighting.item),
                }
            },
            None => WindowsSighting { state: self, outcome: Some(None) },
        }
    }

    /// Pending files, text, files and PNG are looked at in turn until one of them decides the
    /// snapshot.
    pub open spec fn before_bitmap(self, contents: WindowsContents) -> WindowsSighting {
        let pending = self.begun();
        let text = pending.state.text_seen(contents.text);
        let files = text.state.files_seen(contents.files);
        if pending.outcome is Some {
            pending
        } else if text.outcome is Some {
            text
        } else if files.outcome is Some {
            files
        } else {
            files.state.png_seen(contents.png)
        }
    }

    /// A whole snapshot: where nothing else decides it, the bitmap does.
    pub open spec fn snapshot(self, contents: WindowsContents) -> WindowsSighting {
        let before = self.before_bitmap(contents);
        if before.outcome is Some {
            before
        } else {
            before.state.bitmap_seen(contents.bitmap)
        }
    }

    /// The state after so many snapshots of a clipboard that does not change.
    pub open spec fn after_snapshots(self, contents: WindowsContents, count: nat) -> WindowsView
        decreases count,
    {
        if count == 0 {
            self
        } else {
            self.after_snapshots(contents, (count - 1) as nat).snapshot(contents).state
        }
    }
}

/// The PNG file that is made of the bitmap on a clipboard, where there is one.
pub open spec fn bitmap_outcome(image: Option<RawImage>) -> Result<Option<Seq<u8>>, ImageFailure> {
    match image {
        None => Ok(None),
        Some(image) => match png_outcome(image.width as u32, image.height as u32, image.bytes@) {
            Ok(png) => Ok(Some(png)),
            Err(failure) => Err(failure),
        },
    }
}

/// The little endian bytes of a 32 bit number.
pub open spec fn le32(value: u32) -> Seq<u8> {
    seq![
        (value % 0x100) as u8,
        (value / 0x100 % 0x100) as u8,
        (value / 0x1_0000 % 0x100) as u8,
        (value / 0x100_0000) as u8,
    ]
}

/// A negative number in two's complement.
pub open spec fn negated(value: u32) -> u32 {
    if value == 0 {
        0
    } else {
        (0x1_0000_0000 - value) as u32
    }
}

/// The header of a bitmap with 32 bits per pixel: header size, width, negative height (the rows
/// run from the top), one plane of 32 bits, no compression, and the size of the pixels.
pub open spec fn dib_header(width: u32, height: u32, size: u32) -> Seq<u8> {
    le32(40) + le32(width) + le32(negated(height)) + seq![1u8, 0u8, 32u8, 0u8] + le32(0) + le32(
        size,
    ) + le32(0) + le32(0) + le32(0) + le32(0)
}

/// The pixels with red and blue in each other's place.
pub open spec fn red_and_blue_swapped(pixels: Seq<u8>) -> Seq<u8> {
    Seq::new(
        pixels.len(),
        |i: int|
            if i / 4 * 4 + 4 > pixels.len() {
                pixels[i]
            } else if i % 4 == 0 {
                pixels[i + 2]
            } else if i % 4 == 2 {
                pixels[i - 2]
            } else {
                pixels[i]
            },
    )
}

/// The bitmap of an RGBA image.
pub open spec fn dib_bytes(width: u32, height: u32, rgba: Seq<u8>) -> Seq<u8> {
    dib_header(width, height, rgba.len() as u32) + red_and_blue_swapped(rgba)
}

fn push_le32(bytes: &mut Vec<u8>, value: u32)
    ensures
        final(bytes)@ == old(bytes)@ + le32(value),
{
    bytes.push((value % 0x100) as u8);
    bytes.push((value / 0x100 % 0x100) as u8);
    bytes.push((value / 0x1_0000 % 0x100) as u8);
    bytes.push((value / 0x100_0000) as u8);
    assert(bytes@ =~= old(bytes)@ + le32(value));
}

fn swap_red_and_blue(pixels: &mut Vec<u8>)
    ensures
        final(pixels)@ == red_and_blue_swapped(old(pixels)@),
{
    let ghost before = pixels@;
    let len: usize = pixels.len();
    let mut i: usize = 0;
    while len - i >= 4
        invariant
            i <= len,
            i % 4 == 0,
            len == before.len(),
            len == pixels@.len(),
            forall|j: int| 0 <= j < i ==> pixels@[j] == red_and_blue_swapped(before)[j],
            forall|j: int| i <= j < len ==> pixels@[j] == before[j],
        decreases len - i,
    {
        let red = pixels[i];
        let blue = pixels[i + 2];
        pixels[i] = blue;
        pixels[i + 2] = red;
        assert forall|j: int| i <= j < i + 4 implies pixels@[j] == red_and_blue_swapped(
            before,
        )[j] by {
            assert(j / 4 * 4 == i && j % 4 == j - i);
        }
        i += 4;
    }
    assert forall|j: int| i <= j < len implies pixels@[j] == red_and_blue_swapped(before)[j] by {
        assert(j / 4 * 4 == i);
    }
    assert(pixels@ =~= red_and_blue_swapped(before));
}

/// The bitmap of an RGBA image, as it lies on the clipboard.
pub fn dib_payload(width: u32, height: u32, rgba: Vec<u8>) -> (dib: Vec<u8>)
    ensures
        dib@ == dib_bytes(width, height, rgba@),
{
    let mut bgra = rgba;
    swap_red_and_blue(&mut bgra);
    let size = bgra.len() as u32;
    let mut dib: Vec<u8> = Vec::new();
    push_le32(&mut dib, 40);
    push_le32(&mut dib, width);
    push_le32(
        &mut dib,
        if height == 0 {
            0
        } else {
            u32::MAX - height + 1
        },
    );
    dib.push(1);
    dib.push(0);
    dib.push(32);
    dib.push(0);
    push_le32(&mut dib, 0);
    push_le32(&mut dib, size);
    push_le32(&mut dib, 0);
    push_le32(&mut dib, 0);
    push_le32(&mut dib, 0);
    push_le32(&mut dib, 0);
    assert(dib@ =~= dib_header(width, height, size));
    let ghost header = dib@;
    dib.extend_from_slice(&bgra);
    assert(dib@ =~= header + bgra@);
    dib
}

fn copy_bytes(bytes: &Vec<u8>) -> (copy: Vec<u8>)
    ensures
        copy@ == bytes@,
{
    let mut copy: Vec<u8> = Vec::new();
    copy.extend_from_slice(bytes);
    assert(copy@ =~= bytes@);
    copy
}

fn same_paths(a: &Vec<Vec<u8>>, b: &Vec<Vec<u8>>) -> (same: bool)
    ensures
        same == (paths_view(a@) == paths_view(b@)),
{
    if a.len() != b.len() {
        assert(paths_view(a@).len() != paths_view(b@).len());
        return false;
    }
    let mut i: usize = 0;
    while i < a.len()
        invariant
            i <= a.len(),
            a.len() == b.len(),
            forall|j: int| 0 <= j < i ==> a@[j]@ == b@[j]@,
        decreases a.len() - i,
    {
        if !same_bytes(&a[i], &b[i]) {
            assert(paths_view(a@)[i as int] != paths_view(b@)[i as int]);
            return false;
        }
        i += 1;
    }
    assert(paths_view(a@) =~= paths_view(b@));
    true
}

/// The paths of an optional list.
pub open spec fn optional_paths(paths: Option<Vec<Vec<u8>>>) -> Option<Seq<Seq<u8>>> {
    match paths {
        Some(paths) => Some(paths_view(paths@)),
        None => None,
    }
}

/// Whether a step hands out what a sighting says, or asks for the next format.
pub open spec fn follows(
    step: WindowsStep,
    outcome: Option<Option<ClipboardItemView>>,
    next: WindowsStep,
) -> bool {
    match outcome {
        Some(item) => step matches WindowsStep::Done(actual) && optional_item(actual) == item,
        None => step == next,
    }
}

/// What the Windows clipboard has handed out last, and the copied files that are still to come.
#[derive(Debug)]
pub struct WindowsBackend {
    seen: Seen,
    last_files: Vec<Vec<u8>>,
    pending_files: VecDeque<Vec<u8>>,
}

impl View for WindowsBackend {
    type V = WindowsView;

    closed spec fn view(&self) -> WindowsView {
        WindowsView {
            seen: self.seen@,
            last_files: paths_view(self.last_files@),
            pending_files: paths_view(self.pending_files@),
        }
    }
}

impl WindowsBackend {
    /// A backend that has handed out nothing.
    pub fn new() -> (backend: Self)
        ensures
            backend@.seen.text == Seq::<char>::empty(),
            backend@.seen.image_hash == Seq::<char>::empty(),
            backend@.last_files == Seq::<Seq<u8>>::empty(),
            backend@.pending_files == Seq::<Seq<u8>>::empty(),
    {
        let backend = WindowsBackend {
            seen: Seen::new(),
            last_files: Vec::new(),
            pending_files: VecDeque::new(),
        };
        assert(backend@.last_files =~= Seq::<Seq<u8>>::empty());
        assert(backend@.pending_files =~= Seq::<Seq<u8>>::empty());
        backend
    }

    /// The name of the backend.
    pub fn name(&self) -> (name: &'static str)
        ensures
            name@ == "windows"@,
    {
        "windows"
    }

    /// Begins a snapshot: a file that is still to come is the snapshot.
    pub fn begin_snapshot(&mut self) -> (step: WindowsStep)
        ensures
            final(self)@ == old(self)@.begun().state,
            follows(step, old(self)@.begun().outcome, WindowsStep::ReadText),
    {
        let ghost before = self@;
        match self.pending_files.pop_front() {
            Some(path) => {
                assert(self@.pending_files =~= before.pending_files.drop_first());
                WindowsStep::Done(Some(ClipboardItem::FilePath(path)))
            },
            None => {
                assert(self@.pending_files =~= before.pending_files);
                WindowsStep::ReadText
            },
        }
    }

    /// Takes the text, where the clipboard offers one.
    pub fn text_read(&mut self, text: Option<String>) -> (step: WindowsStep)
        ensures
            final(self)@ == old(self)@.text_seen(optional_text(text)).state,
            follows(
                step,
                old(self)@.text_seen(optional_text(text)).outcome,
                WindowsStep::ReadFiles,
            ),
    {
        if let Some(text) = text {
            let item = self.seen.take_text(text);
            if let Some(item) = item {
                return WindowsStep::Done(Some(item));
            }
        }
        WindowsStep::ReadFiles
    }

    /// Takes the list of copied files, where the clipboard offers one.
    pub fn files_read(&mut self, paths: Option<Vec<Vec<u8>>>) -> (step: WindowsStep)
        ensures
            final(self)@ == old(self)@.files_seen(optional_paths(paths)).state,
            follows(
                step,
                old(self)@.files_seen(optional_paths(paths)).outcome,
                WindowsStep::ReadPng,
            ),
    {
        let paths = match paths {
            Some(paths) => paths,
            None => return WindowsStep::ReadPng,
        };
        if paths.len() == 0 || same_paths(&paths, &self.last_files) {
            return WindowsStep::ReadPng;
        }
        let ghost before = self@;
        let first = copy_bytes(&paths[0]);
        let mut pending: VecDeque<Vec<u8>> = VecDeque::new();
        let mut i: usize = 1;
        assert(paths_view(pending@) =~= paths_view(paths@).subrange(1, 1));
        while i < paths.len()
            invariant
                1 <= i <= paths.len(),
                paths_view(pending@) == paths_view(paths@).subrange(1, i as int),
            decreases paths.len() - i,
        {
            let ghost kept = pending@;
            pending.push_back(copy_bytes(&paths[i]));
            assert(paths_view(pending@) =~= paths_view(kept).push(paths@[i as int]@));
            assert(paths_view(paths@).subrange(1, i as int).push(paths@[i as int]@) =~= paths_view(
                paths@,
            ).subrange(1, i + 1));
            i += 1;
        }
        assert(paths_view(paths@).subrange(1, i as int) =~= paths_view(paths@).drop_first());
        assert(paths_view(paths@).first() == first@);
        self.pending_files = pending;
        self.last_files = paths;
        WindowsStep::Done(Some(ClipboardItem::FilePath(first)))
    }

    /// Takes the image in the "PNG" format, where the clipboard offers one.
    pub fn png_read(&mut self, png: Option<Vec<u8>>) -> (step: WindowsStep)
        ensures
            final(self)@ == old(self)@.png_seen(optional_bytes(png)).state,
            follows(
                step,
                old(self)@.png_seen(optional_bytes(png)).outcome,
                WindowsStep::ReadImage,
            ),
    {
        let png = match png {
            Some(png) => png,
            None => return WindowsStep::ReadImage,
        };
        if png.len() == 0 {
            return WindowsStep::ReadImage;
        }
        match canonical_image_hash_from_png(&png) {
            Ok(hash) => WindowsStep::Done(self.seen.take_image(png, hash)),
            Err(_) => WindowsStep::ReadImage,
        }
    }

    /// Takes the image as a bitmap, where the clipboard offers one, and completes the snapshot.
    pub fn image_read(&mut self, image: Option<RawImage>) -> (item: Result<
        Option<ClipboardItem>,
        ImageFailure,
    >)
        ensures
            final(self)@.last_files == old(self)@.last_files,
            final(self)@.pending_files == old(self)@.pending_files,
            match image {
                None => item matches Ok(item) && item is None && final(self)@ == old(self)@,
                Some(image) => match png_outcome(
                    image.width as u32,
                    image.height as u32,
                    image.bytes@,
                ) {
                    Ok(png) => {
                        &&& item matches Ok(item)
                        &&& image_sighting(old(self)@.seen, png, bytes_hash(png)) == (Sighting {
                            seen: final(self)@.seen,
                            item: optional_item(item),
                        })
                    },
                    Err(failure) => {
                        &&& item matches Err(actual)
                        &&& actual == failure
                        &&& final(self)@ == old(self)@
                    },
                },
            },
    {
        match image {
            Some(image) => self.seen.take_raw_image(image),
            None => Ok(None),
        }
    }

    /// A whole snapshot of a clipboard that offers `text`, `files`, `png` and `image`. What comes
    /// later counts only where nothing before it decides the snapshot, so a bitmap that cannot be
    /// written as PNG fails it only there.
    pub fn read_snapshot(
        &mut self,
        text: Option<String>,
        files: Option<Vec<Vec<u8>>>,
        png: Option<Vec<u8>>,
        image: Option<RawImage>,
    ) -> (item: Result<Option<ClipboardItem>, ImageFailure>)
        ensures
            ({
                let bitmap = bitmap_outcome(image);
                let contents = WindowsContents {
                    text: optional_text(text),
                    files: optional_paths(files),
                    png: optional_bytes(png),
                    bitmap: match bitmap {
                        Ok(bitmap) => bitmap,
                        Err(_) => None,
                    },
                };
                let sighting = old(self)@.snapshot(contents);
                if old(self)@.before_bitmap(contents).outcome is None && bitmap is Err {
                    &&& item matches Err(failure)
                    &&& bitmap == Err::<Option<Seq<u8>>, ImageFailure>(failure)
                    &&& final(self)@ == old(self)@
                } else {
                    &&& item matches Ok(item)
                    &&& sighting.outcome == Some(optional_item(item))
                    &&& final(self)@ == sighting.state
                }
            }),
    {
        if let WindowsStep::Done(item) = self.begin_snapshot() {
            return Ok(item);
        }
        if let WindowsStep::Done(item) = self.text_read(text) {
            return Ok(item);
        }
        if let WindowsStep::Done(item) = self.files_read(files) {
            return Ok(item);
        }
        if let WindowsStep::Done(item) = self.png_read(png) {
            return Ok(item);
        }
        self.image_read(image)
    }

    /// What is put onto the clipboard for an item; file paths are not put there.
    pub fn write_request(item: &ClipboardItem) -> (request: Result<WindowsWrite, ImageFailure>)
        ensures
            match item@ {
                ClipboardItemView::Text(text) => {
                    &&& request matches Ok(WindowsWrite::Text(actual))
                    &&& actual@ == text
                },
                ClipboardItemView::ImagePng(png) => match file_pixels(png) {
                    Some((width, height, pixels)) => {
                        &&& request matches Ok(WindowsWrite::Image { dib })
                        &&& dib@ == dib_bytes(width, height, pixels)
                    },
                    None => request matches Err(failure) && failure == ImageFailure::Decoding,
                },
                ClipboardItemView::FilePath(_) => request matches Ok(WindowsWrite::Nothing),
            },
    {
        match item {
            ClipboardItem::Text(text) => Ok(WindowsWrite::Text(text.clone())),
            ClipboardItem::ImagePng(png) => match decode_image(png) {
                Ok((width, height, pixels)) => Ok(
                    WindowsWrite::Image { dib: dib_payload(width, height, pixels) },
                ),
                Err(_) => Err(ImageFailure::Decoding),
            },
            ClipboardItem::FilePath(_) => Ok(WindowsWrite::Nothing),
        }
    }

    /// Takes an image that was put onto the clipboard for handed out, so that it is not taken for
    /// news.
    pub fn note_image_written(&mut self, png: &[u8]) -> (noted: Result<(), ImageFailure>)
        ensures
            final(self)@.seen.text == old(self)@.seen.text,
            final(self)@.last_files == old(self)@.last_files,
            final(self)@.pending_files == old(self)@.pending_files,
            match canonical_file_hash_outcome(png@) {
                Ok(hash) => noted is Ok && final(self)@.seen.image_hash == hash,
                Err(failure) => {
                    &&& noted == Err::<(), ImageFailure>(failure)
                    &&& final(self)@ == old(self)@
                },
            },
    {
        self.seen.note_image(png)
    }

    /// Takes the text that an image has left on the clipboard for handed out.
    pub fn note_current_text(&mut self, text: Result<String, arboard::Error>)
        ensures
            final(self)@ == (WindowsView {
                seen: match text {
                    Ok(text) => SeenView { text: text@, ..old(self)@.seen },
                    Err(_) => old(self)@.seen,
                },
                ..old(self)@
            }),
    {
        self.seen.note_text(text)
    }
}

/// What the window that listens for clipboard changes meets.
#[derive(Debug, Clone, Copy, PartialEq, Eq, Structural)]
pub enum WatcherEvent {
    /// The window was to be created.
    WindowCreated { created: bool },
    /// The window was to be registered as a listener.
    ListenerAdded { added: bool },
    /// A message came for the window.
    Message { clipboard_update: bool },
    /// A change was reported to the client, who may be gone.
    Notified { received: bool },
    /// The message was dispatched.
    Dispatched,
    /// No more messages will come.
    Quit,
}

/// What the window that listens for clipboard changes does next.
#[derive(Debug, Clone, Copy, PartialEq, Eq, Structural)]
pub enum WatcherStep {
    AddListener,
    /// There is no window: report that, and end.
    ReportNoWindow,
    /// There is a window that cannot listen: report that, destroy it, and end.
    ReportNoListener,
    GetMessage,
    /// Report the change to the client.
    Notify,
    /// Dispatch the message as usual.
    Dispatch,
    /// Remove the listener, destroy the window, and end.
    CleanUp,
}

/// What the listening window does on an event: it reports every clipboard update, dispatches every
/// message, and cleans up when the client is gone or no more messages come.
pub fn watcher_step(event: WatcherEvent) -> (step: WatcherStep)
    ensures
        step == (match event {
            WatcherEvent::WindowCreated { created } => if created {
                WatcherStep::AddListener
            } else {
                WatcherStep::ReportNoWindow
            },
            WatcherEvent::ListenerAdded { added } => if added {
                WatcherStep::GetMessage
            } else {
                WatcherStep::ReportNoListener
            },
            WatcherEvent::Message { clipboard_update } => if clipboard_update {
                WatcherStep::Notify
            } else {
                WatcherStep::Dispatch
            },
            WatcherEvent::Notified { received } => if received {
                WatcherStep::Dispatch
            } else {
                WatcherStep::CleanUp
            },
            WatcherEvent::Dispatched => WatcherStep::GetMessage,
            WatcherEvent::Quit => WatcherStep::CleanUp,
        }),
{
    match event {
        WatcherEvent::WindowCreated { created: true } => WatcherStep::AddListener,
        WatcherEvent::WindowCreated { created: false } => WatcherStep::ReportNoWindow,
        WatcherEvent::ListenerAdded { added: true } => WatcherStep::GetMessage,
        WatcherEvent::ListenerAdded { added: false } => WatcherStep::ReportNoListener,
        WatcherEvent::Message { clipboard_update: true } => WatcherStep::Notify,
        WatcherEvent::Message { clipboard_update: false } => WatcherStep::Dispatch,
        WatcherEvent::Notified { received: true } => WatcherStep::Dispatch,
        WatcherEvent::Notified { received: false } => WatcherStep::CleanUp,
        WatcherEvent::Dispatched => WatcherStep::GetMessage,
        WatcherEvent::Quit => WatcherStep::CleanUp,
    }
}

/// Swapping red and blue twice gives the pixels back, so nothing is lost on the clipboard.
pub proof fn swapping_twice_changes_nothing(pixels: Seq<u8>)
    ensures
        red_and_blue_swapped(red_and_blue_swapped(pixels)) == pixels,
{
    let swapped = red_and_blue_swapped(pixels);
    assert forall|i: int| 0 <= i < pixels.len() implies red_and_blue_swapped(swapped)[i]
        == pixels[i] by {
        if i / 4 * 4 + 4 <= pixels.len() {
            if i % 4 == 0 {
                assert((i + 2) / 4 == i / 4 && (i + 2) % 4 == 2);
                assert(swapped[i + 2] == pixels[i]);
            } else if i % 4 == 2 {
                assert((i - 2) / 4 == i / 4 && (i - 2) % 4 == 0);
                assert(swapped[i - 2] == pixels[i]);
            }
        }
    }
    assert(red_and_blue_swapped(swapped) =~= pixels);
}

/// The bitmap is a header of forty bytes and the pixels.
pub proof fn bitmap_has_header_and_pixels(width: u32, height: u32, rgba: Seq<u8>)
    ensures
        dib_bytes(width, height, rgba).len() == 40 + rgba.len(),
        red_and_blue_swapped(dib_bytes(width, height, rgba).skip(40)) == rgba,
{
    swapping_twice_changes_nothing(rgba);
    assert(dib_bytes(width, height, rgba).skip(40) =~= red_and_blue_swapped(rgba));
}

/// Copied files come out one by one, each once, in the order in which they were copied, and then
/// nothing: a clipboard that offers a new list of files, no new text and no image, hands out file
/// number `count` at the snapshot that follows `count` others.
pub proof fn copied_files_come_out_in_order(
    state: WindowsView,
    contents: WindowsContents,
    paths: Seq<Seq<u8>>,
    count: nat,
)
    requires
        state.pending_files.len() == 0,
        contents.text matches Some(text) ==> text == state.seen.text,
        contents.files == Some(paths),
        paths.len() > 0,
        paths != state.last_files,
        contents.png is None,
        contents.bitmap is None,
    ensures
        state.after_snapshots(contents, count).snapshot(contents).outcome == Some(
            if count < paths.len() {
                Some(ClipboardItemView::FilePath(paths[count as int]))
            } else {
                None
            },
        ),
        count > 0 ==> ({
            let after = state.after_snapshots(contents, count);
            &&& after.seen == state.seen
            &&& after.last_files == paths
            &&& after.pending_files == (if count < paths.len() {
                paths.skip(count as int)
            } else {
                Seq::empty()
            })
        }),
    decreases count,
{
    if count > 0 {
        copied_files_come_out_in_order(state, contents, paths, (count - 1) as nat);
        if count == 1 {
            assert(paths.drop_first() =~= paths.skip(1));
        } else if count <= paths.len() {
            assert(paths.skip(count - 1).drop_first() =~= paths.skip(count as int));
        }
        if count >= paths.len() {
            assert(state.after_snapshots(contents, count).pending_files =~= Seq::empty());
        }
    }
}

} // verus!
