//! Text labels, as far as their alignment goes.

use crate::handle::Handle;
use crate::obj::{LvError, LvResult, Obj};
use cstr_core::{CString, NulError};
use vstd::prelude::*;
use vstd::string::StringSliceAdditionalSpecFns;

verus! {

/// `cstr_core::CString`, an owned string that ends with a zero byte and holds
/// no other.
#[verifier::external_type_specification]
#[verifier::external_body]
pub struct ExCString(CString);

/// `cstr_core::NulError`, which `CString::new` returns for bytes that hold a
/// zero byte.
#[verifier::external_type_specification]
#[verifier::external_body]
pub struct ExNulError(NulError);

/// The bytes of a C string, without the zero byte that ends it.
pub uninterp spec fn c_string_bytes(text: CString) -> Seq<u8>;

/// `CString::new`, on the bytes of a string slice: it fails exactly when one
/// of the bytes is zero, and otherwise returns a C string of the same bytes.
#[verifier::external_body]
fn c_string_new(text: &str) -> (result: Result<CString, NulError>)
    ensures
        result is Ok <==> !text.spec_bytes().contains(0u8),
        result is Ok ==> c_string_bytes(result->Ok_0) == text.spec_bytes(),
{
    CString::new(text)
}

/// The text of a label as the engine takes it: the same bytes, ended by a
/// zero byte. A text that holds a zero byte has no such form.
pub fn label_text(text: &str) -> (c_text: Option<CString>)
    ensures
        c_text is Some <==> !text.spec_bytes().contains(0u8),
        c_text is Some ==> c_string_bytes(c_text->0) == text.spec_bytes(),
{
    match c_string_new(text) {
        Ok(c_text) => Some(c_text),
        Err(_) => None,
    }
}

/// How the lines of a label are aligned.
#[derive(Clone, Copy, Debug, PartialEq, Eq, Structural)]
pub enum LabelAlign {
    /// Lines start at the left edge.
    Left,
    /// Lines are centred.
    Center,
    /// Lines end at the right edge.
    Right,
    /// Left or right, by the direction in which the text is read.
    Auto,
}

impl LabelAlign {
    /// The number by which the engine knows this alignment.
    pub open spec fn native(self) -> u8 {
        match self {
            LabelAlign::Left => 0,
            LabelAlign::Center => 1,
            LabelAlign::Right => 2,
            LabelAlign::Auto => 3,
        }
    }

    /// The number by which the engine knows this alignment.
    pub fn to_native(self) -> (code: u8)
        ensures
            code == self.native(),
    {
        match self {
            LabelAlign::Left => 0,
            LabelAlign::Center => 1,
            LabelAlign::Right => 2,
            LabelAlign::Auto => 3,
        }
    }
}

/// A text label of the engine's widget tree.
#[derive(Debug, PartialEq, Eq)]
pub struct Label {
    core: Obj,
}

impl View for Label {
    type V = usize;

    closed spec fn view(&self) -> usize {
        self.core@
    }
}

impl Label {
    /// The label that is the given object.
    pub fn from_obj(core: Obj) -> (label: Label)
        ensures
            label@ == core@,
    {
        Label { core }
    }

    /// The label's address, or `InvalidReference` where it refers to
    /// nothing.
    pub fn raw(&self) -> (raw: LvResult<Handle>)
        ensures
            self@ == 0 ==> raw == Err::<Handle, LvError>(LvError::InvalidReference),
            self@ != 0 ==> raw is Ok && raw->Ok_0@ == self@,
    {
        self.core.raw()
    }

    /// Sets the alignment of the label's lines.
    ///
    /// `engine` takes the label's address and the alignment's number. It is
    /// called once, unless the label refers to nothing: then the result is
    /// `InvalidReference` and the engine is not asked.
    pub fn set_label_align<F>(&mut self, align: LabelAlign, engine: F) -> (result: LvResult<()>)
        where F: FnOnce(usize, u8) -> ()
        requires
            old(self)@ != 0 ==> call_requires(engine, (old(self)@, align.native())),
        ensures
            final(self)@ == old(self)@,
            old(self)@ == 0 ==> result == Err::<(), LvError>(LvError::InvalidReference),
            old(self)@ != 0 ==> result == Ok::<(), LvError>(()) && call_ensures(
                engine,
                (old(self)@, align.native()),
                (),
            ),
    {
        match self.raw() {
            Ok(raw) => {
                let ptr: usize = raw.as_ptr();
                engine(ptr, align.to_native());
                Ok(())
            },
            Err(err) => Err(err),
        }
    }
}

} // verus!
