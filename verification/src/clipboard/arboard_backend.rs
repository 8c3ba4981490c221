//! The clipboard of a session without a backend of its own.

use crate::clipboard::{
    canonical_file_hash_outcome, image_sighting, optional_item, plain_text_sighting, png_outcome,
    ClipboardItem, ClipboardItemView, ImageFailure, RawImage, Seen, SeenView, Sighting,
};
use crate::codec::{decode_image, file_pixels};
use crate::security::bytes_hash;
use crate::text::optional_text;
use vstd::prelude::*;

verus! {

/// What to do next for a snapshot.
#[derive(Debug)]
pub enum ArboardStep {
    /// Ask for the text.
    ReadText,
    /// The snapshot is complete.
    Done(ClipboardItem),
}

/// What is to be put onto the clipboard.
#[derive(Debug)]
pub enum ArboardWrite {
    Text(String),
    Image(RawImage),
    Nothing,
}

/// What a text on the clipboard leaves behind and hands out.
pub open spec fn offered_text_sighting(seen: SeenView, text: Option<Seq<char>>) -> Sighting {
    match text {
        Some(text) => plain_text_sighting(seen, text),
        None => Sighting { seen, item: None },
    }
}

/// What a whole snapshot leaves behind and hands out: a new image, else a new text.
pub open spec fn offered_snapshot(
    seen: SeenView,
    image: Option<RawImage>,
    text: Option<Seq<char>>,
) -> Result<Sighting, ImageFailure> {
    match image {
        None => Ok(offered_text_sighting(seen, text)),
        Some(image) => match png_outcome(image.width as u32, image.height as u32, image.bytes@) {
            Ok(png) => {
                let first = image_sighting(seen, png, bytes_hash(png));
                if first.item is Some {
                    Ok(first)
                } else {
                    Ok(offered_text_sighting(first.seen, text))
                }
            },
            Err(failure) => Err(failure),
        },
    }
}

/// What the clipboard has handed out last.
#[derive(Debug)]
pub struct ArboardBackend {
    seen: Seen,
}

impl View for ArboardBackend {
    type V = SeenView;

    closed spec fn view(&self) -> SeenView {
        self.seen@
    }
}

impl ArboardBackend {
    /// A backend that has handed out nothing.
    pub fn new() -> (backend: Self)
        ensures
            backend@.text == Seq::<char>::empty(),
            backend@.image_hash == Seq::<char>::empty(),
    {
        ArboardBackend { seen: Seen::new() }
    }

    /// The name of the backend.
    pub fn name(&self) -> (name: &'static str)
        ensures
            name@ == "arboard"@,
    {
        "arboard"
    }

    /// The first half of a snapshot: takes the image, where the clipboard offers one. A new image
    /// is the snapshot, otherwise the text is to be read.
    pub fn image_read(&mut self, image: Option<RawImage>) -> (step: Result<
        ArboardStep,
        ImageFailure,
    >)
        ensures
            match image {
                None => step matches Ok(step) && step is ReadText && final(self)@ == old(self)@,
                Some(image) => match png_outcome(
                    image.width as u32,
                    image.height as u32,
                    image.bytes@,
                ) {
                    Ok(png) => {
                        let sighting = image_sighting(old(self)@, png, bytes_hash(png));
                        &&& step matches Ok(step)
                        &&& final(self)@ == sighting.seen
                        &&& match sighting.item {
                            Some(item) => step matches ArboardStep::Done(actual) && actual@ == item,
                            None => step is ReadText,
                        }
                    },
                    Err(failure) => {
                        &&& step matches Err(actual)
                        &&& actual == failure
                        &&& final(self)@ == old(self)@
                    },
                },
            },
    {
        if let Some(image) = image {
            match self.seen.take_raw_image(image) {
                Ok(Some(item)) => return Ok(ArboardStep::Done(item)),
                Ok(None) => {},
                Err(failure) => return Err(failure),
            }
        }
        Ok(ArboardStep::ReadText)
    }

    /// The second half of a snapshot: takes the text, where the clipboard offers one.
    pub fn text_read(&mut self, text: Option<String>) -> (item: Option<ClipboardItem>)
        ensures
            offered_text_sighting(old(self)@, optional_text(text)) == (Sighting {
                seen: final(self)@,
                item: optional_item(item),
            }),
    {
        match text {
            Some(text) => self.seen.take_plain_text(text),
            None => None,
        }
    }

    /// A whole snapshot of a clipboard that offers `image` and `text`. An image that cannot be
    /// written as PNG fails it; the text counts only where there is no new image.
    pub fn read_snapshot(&mut self, image: Option<RawImage>, text: Option<String>) -> (item: Result<
        Option<ClipboardItem>,
        ImageFailure,
    >)
        ensures
            match offered_snapshot(old(self)@, image, optional_text(text)) {
                Ok(sighting) => {
                    &&& item matches Ok(item)
                    &&& sighting == (Sighting { seen: final(self)@, item: optional_item(item) })
                },
                Err(failure) => {
                    &&& item matches Err(actual)
                    &&& actual == failure
                    &&& final(self)@ == old(self)@
                },
            },
    {
        match self.image_read(image) {
            Ok(ArboardStep::Done(item)) => Ok(Some(item)),
            Ok(ArboardStep::ReadText) => Ok(self.text_read(text)),
            Err(failure) => Err(failure),
        }
    }

    /// What is put onto the clipboard for an item; file paths have no place on it.
    pub fn write_request(item: &ClipboardItem) -> (request: Result<ArboardWrite, ImageFailure>)
        ensures
            match item@ {
                ClipboardItemView::Text(text) => {
                    &&& request matches Ok(ArboardWrite::Text(actual))
                    &&& actual@ == text
                },
                ClipboardItemView::ImagePng(png) => match file_pixels(png) {
                    Some((width, height, pixels)) => {
                        &&& request matches Ok(ArboardWrite::Image(image))
                        &&& image.width == width
                        &&& image.height == height
                        &&& image.bytes@ == pixels
                    },
                    None => request matches Err(failure) && failure == ImageFailure::Decoding,
                },
                ClipboardItemView::FilePath(_) => request matches Ok(ArboardWrite::Nothing),
            },
    {
        match item {
            ClipboardItem::Text(text) => Ok(ArboardWrite::Text(text.clone())),
            ClipboardItem::ImagePng(png) => match decode_image(png) {
                Ok((width, height, bytes)) => Ok(
                    ArboardWrite::Image(
                        RawImage { width: width as usize, height: height as usize, bytes },
                    ),
                ),
                Err(_) => Err(ImageFailure::Decoding),
            },
            ClipboardItem::FilePath(_) => Ok(ArboardWrite::Nothing),
        }
    }

    /// Takes an image that was put onto the clipboard for handed out, so that it is not taken for
    /// news.
    pub fn note_image_written(&mut self, png: &[u8]) -> (noted: Result<(), ImageFailure>)
        ensures
            final(self)@.text == old(self)@.text,
            match canonical_file_hash_outcome(png@) {
                Ok(hash) => noted is Ok && final(self)@.image_hash == hash,
                Err(failure) => {
                    &&& noted == Err::<(), ImageFailure>(failure)
                    &&& final(self)@ == old(self)@
                },
            },
    {
        self.seen.note_image(png)
    }

    /// Takes the text that an image has left on the clipboard for handed out.
    pub fn note_current_text(&mut self, text: Result<String, arboard::Error>)
        ensures
            final(self)@ == (match text {
                Ok(text) => SeenView { text: text@, ..old(self)@ },
                Err(_) => old(self)@,
            }),
    {
        self.seen.note_text(text)
    }
}

} // verus!
