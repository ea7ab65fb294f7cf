//! The typed payload of a reply, and what each method's reply must hold.

use vstd::prelude::*;
use crate::error::{CaptureError, ErrorKind};
use crate::raster::Resolution;

verus! {

/// One item of a reply, as far as the capture reads it.
#[derive(Debug, PartialEq, Eq)]
pub enum ReplyItem {
    /// A string.
    Str(String),
    /// An unsigned 32-bit integer.
    UInt32(u32),
    /// A signed 32-bit integer.
    Int32(i32),
    /// An array of bytes.
    Bytes(Vec<u8>),
    /// An array of anything but bytes.  On the bus all elements of an
    /// array have one type; a value of this type need not keep to that.
    Array(Vec<ReplyItem>),
    /// A record of fields of any types.
    Struct(Vec<ReplyItem>),
    /// A value of a type that no method of the screen interface returns.
    Other,
}

/// Whether every element of `list` is a string.
pub open spec fn all_strings(list: Seq<ReplyItem>) -> bool {
    forall|i: int| 0 <= i < list.len() ==> list[i] is Str
}

/// Whether `item` names an output: it is a string, or a list of strings
/// that is not empty.
pub open spec fn names_output(item: ReplyItem) -> bool {
    match item {
        ReplyItem::Str(_) => true,
        ReplyItem::Array(list) => list@.len() > 0 && all_strings(list@),
        _ => false,
    }
}

/// What the reply to `ActiveScreen` or `List` names as the output.
///
/// A single active output comes as a string.  A list of outputs comes as
/// an array of strings and nothing else, of which the first counts.
pub open spec fn output_in(items: Seq<ReplyItem>) -> Result<Seq<char>, CaptureError> {
    if items.len() == 0 {
        Err(CaptureError::UnexpectedReply)
    } else {
        match items[0] {
            ReplyItem::Str(name) => Ok(name@),
            ReplyItem::Array(list) => if list@.len() > 0 && all_strings(list@) {
                Ok(list@[0]->Str_0@)
            } else {
                Err(CaptureError::WrongOutputType)
            },
            _ => Err(CaptureError::WrongOutputType),
        }
    }
}

/// What the reply to `Resolution` gives as the size of the output.
///
/// The first item must be a record of exactly two unsigned 32-bit integers,
/// width before height, neither of them zero.
pub open spec fn resolution_in(items: Seq<ReplyItem>) -> Result<Resolution, CaptureError> {
    if items.len() == 0 {
        Err(CaptureError::UnexpectedReply)
    } else {
        match items[0] {
            ReplyItem::Struct(fields) => if fields@.len() == 2 && fields@[0] is UInt32
                && fields@[1] is UInt32 && fields@[0]->UInt32_0 > 0 && fields@[1]->UInt32_0 > 0 {
                Ok(Resolution { width: fields@[0]->UInt32_0, height: fields@[1]->UInt32_0 })
            } else {
                Err(CaptureError::UnexpectedReply)
            },
            _ => Err(CaptureError::NoResolution),
        }
    }
}

/// What the reply to `Scrape` holds as the raw frame.
pub open spec fn frame_in(items: Seq<ReplyItem>) -> Result<Seq<u8>, CaptureError> {
    if items.len() > 0 && items[0] is Bytes {
        Ok(items[0]->Bytes_0@)
    } else {
        Err(CaptureError::UnexpectedReply)
    }
}

/// Tells whether every element of `list` is a string.
pub fn holds_strings(list: &Vec<ReplyItem>) -> (yes: bool)
    ensures
        yes == all_strings(list@),
{
    let mut i: usize = 0;
    while i < list.len()
        invariant
            i <= list@.len(),
            forall|k: int| 0 <= k < i ==> list@[k] is Str,
        decreases list@.len() - i,
    {
        match &list[i] {
            ReplyItem::Str(_) => {},
            _ => {
                return false;
            },
        }
        i += 1;
    }
    true
}

/// Reads the output's name from the reply to `ActiveScreen` or `List`.
///
/// Fails with `UnexpectedReply` on an empty reply and with `WrongOutputType`
/// where the first item is neither a string nor a list of strings with at
/// least one element.  A list that holds anything but strings is refused
/// even where it starts with one.
pub fn output_id(items: &Vec<ReplyItem>) -> (result: Result<String, CaptureError>)
    ensures
        match result {
            Ok(name) => output_in(items@) == Ok::<Seq<char>, CaptureError>(name@),
            Err(e) => output_in(items@) == Err::<Seq<char>, CaptureError>(e),
        },
        result is Ok <==> items@.len() > 0 && names_output(items@[0]),
{
    if items.len() == 0 {
        return Err(CaptureError::UnexpectedReply);
    }
    match &items[0] {
        ReplyItem::Str(name) => Ok(name.clone()),
        ReplyItem::Array(list) => {
            if list.len() == 0 || !holds_strings(list) {
                return Err(CaptureError::WrongOutputType);
            }
            match &list[0] {
                ReplyItem::Str(name) => Ok(name.clone()),
                _ => Err(CaptureError::WrongOutputType),
            }
        },
        _ => Err(CaptureError::WrongOutputType),
    }
}

/// Reads the output's size from the reply to `Resolution`.
///
/// Fails with `NoResolution` where the first item is not a record, and with
/// `UnexpectedReply` on an empty reply or a record that is not two positive
/// unsigned 32-bit integers.
pub fn resolution(items: &Vec<ReplyItem>) -> (result: Result<Resolution, CaptureError>)
    ensures
        result == resolution_in(items@),
        result is Ok ==> result->Ok_0.valid(),
{
    if items.len() == 0 {
        return Err(CaptureError::UnexpectedReply);
    }
    match &items[0] {
        ReplyItem::Struct(fields) => {
            if fields.len() != 2 {
                return Err(CaptureError::UnexpectedReply);
            }
            match (&fields[0], &fields[1]) {
                (ReplyItem::UInt32(width), ReplyItem::UInt32(height)) => {
                    if *width > 0 && *height > 0 {
                        Ok(Resolution { width: *width, height: *height })
                    } else {
                        Err(CaptureError::UnexpectedReply)
                    }
                },
                _ => Err(CaptureError::UnexpectedReply),
            }
        },
        _ => Err(CaptureError::NoResolution),
    }
}

/// Takes the raw frame out of the reply to `Scrape`.
///
/// Fails with `UnexpectedReply` unless the first item is an array of bytes.
/// The length of the frame is not looked at here.
pub fn frame(items: Vec<ReplyItem>) -> (result: Result<Vec<u8>, CaptureError>)
    ensures
        match result {
            Ok(bytes) => frame_in(items@) == Ok::<Seq<u8>, CaptureError>(bytes@),
            Err(e) => frame_in(items@) == Err::<Seq<u8>, CaptureError>(e),
        },
{
    let mut items = items;
    if items.len() == 0 {
        return Err(CaptureError::UnexpectedReply);
    }
    match items.swap_remove(0) {
        ReplyItem::Bytes(bytes) => Ok(bytes),
        _ => Err(CaptureError::UnexpectedReply),
    }
}

/// A reply to `ActiveScreen` whose first item is neither a string nor a
/// list of strings with at least one element is turned down as a reply of
/// the wrong shape, and every other reply that is not empty names an
/// output.
pub proof fn lemma_output_must_be_named(items: Seq<ReplyItem>)
    requires
        items.len() > 0,
    ensures
        !names_output(items[0]) ==> output_in(items) == Err::<Seq<char>, CaptureError>(
            CaptureError::WrongOutputType,
        ),
        names_output(items[0]) <==> output_in(items) is Ok,
        CaptureError::WrongOutputType.spec_kind() == ErrorKind::ReplyShape,
{
}

/// Whatever a reply holds, reading it fails only with an error of the
/// family `ReplyShape`, and a size that is read has no empty side.
pub proof fn lemma_replies_fail_by_shape(items: Seq<ReplyItem>)
    ensures
        output_in(items) is Err ==> output_in(items)->Err_0.spec_kind() == ErrorKind::ReplyShape,
        resolution_in(items) is Err ==> resolution_in(items)->Err_0.spec_kind()
            == ErrorKind::ReplyShape,
        frame_in(items) is Err ==> frame_in(items)->Err_0.spec_kind() == ErrorKind::ReplyShape,
        resolution_in(items) is Ok ==> resolution_in(items)->Ok_0.valid(),
{
}

} // verus!
