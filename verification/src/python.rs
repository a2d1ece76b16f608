//! The boundary with the Python interpreter.
//!
//! Everything here is trusted: Verus reads the contracts and not the bodies.
//! What an object answers depends on the state of the interpreter, so no
//! function of this file promises anything of its result. Each one takes the
//! interpreter's lock for the length of its one call.

use cpython::{NoArgs, ObjectProtocol, PyDict, PyErr, PyObject, PyString, Python, PythonObject};
use std::fmt::Write;
use vstd::prelude::*;

verus! {

#[verifier::external_type_specification]
#[verifier::external_body]
pub struct ExPyObject(cpython::PyObject);

#[verifier::external_type_specification]
#[verifier::external_body]
pub struct ExPyErr(cpython::PyErr);

#[verifier::external_type_specification]
#[verifier::external_body]
pub struct ExPyString(cpython::PyString);

#[verifier::external_type_specification]
#[verifier::external_body]
pub struct ExPyDict(cpython::PyDict);

/// A reference to an object that lives in the interpreter.
pub struct Value {
    handle: PyObject,
}

impl Value {
    /// The reference that this value holds.
    pub closed spec fn handle(self) -> PyObject {
        self.handle
    }

    /// Takes over a reference to an object.
    pub fn new(handle: PyObject) -> (value: Value)
        ensures
            value.handle() == handle,
    {
        Value { handle }
    }
}

/// `ObjectProtocol::getattr`: looks the attribute `name` up on `object`, as
/// `object.name` does. Nothing is claimed of the outcome.
#[verifier::external_body]
pub(crate) fn get_attribute(object: &Value, name: &str) -> (outcome: Result<Value, PyErr>) {
    let gil = Python::acquire_gil();
    object.handle.getattr(gil.python(), name).map(|handle| Value { handle })
}

/// `ObjectProtocol::call` with `NoArgs`: calls `callable` without arguments.
/// Nothing is claimed of the outcome.
#[verifier::external_body]
pub(crate) fn call(callable: &Value) -> (outcome: Result<Value, PyErr>) {
    let gil = Python::acquire_gil();
    callable.handle.call(gil.python(), NoArgs, None).map(|handle| Value { handle })
}

/// `PyObject::is_none`: whether `object` is the interpreter's `None`.
/// Nothing is claimed of the answer.
#[verifier::external_body]
pub(crate) fn is_none(object: &Value) -> (none: bool) {
    let gil = Python::acquire_gil();
    object.handle.is_none(gil.python())
}

/// `ObjectProtocol::str`: asks `object` for its text, as `str(object)` does.
/// Nothing is claimed of the outcome.
#[verifier::external_body]
pub(crate) fn str_of(object: &Value) -> (outcome: Result<PyString, PyErr>) {
    let gil = Python::acquire_gil();
    object.handle.str(gil.python())
}

/// `PyObject::cast_as::<PyString>`: `object` seen as a string, `None` when
/// it is not one. Nothing is claimed of the outcome.
#[verifier::external_body]
pub(crate) fn as_string(object: &Value) -> (string: Option<&PyString>) {
    let gil = Python::acquire_gil();
    object.handle.cast_as::<PyString>(gil.python()).ok()
}

/// `PyString::to_string`: the characters of `string`, an error when they are
/// not valid Unicode. Nothing is claimed of the outcome.
#[verifier::external_body]
pub(crate) fn string_text(string: &PyString) -> (outcome: Result<String, PyErr>) {
    let gil = Python::acquire_gil();
    string.to_string(gil.python()).map(|text| text.into_owned())
}

/// `PyString::to_string_lossy`: the characters of `string`, with U+FFFD in
/// place of what is not valid Unicode. Nothing is claimed of the text.
#[verifier::external_body]
pub(crate) fn string_text_lossy(string: &PyString) -> (text: String) {
    let gil = Python::acquire_gil();
    string.to_string_lossy(gil.python()).into_owned()
}

/// `PyObject::cast_as::<PyDict>`: `object` seen as a dictionary, `None` when
/// it is not one. Nothing is claimed of the outcome.
#[verifier::external_body]
pub(crate) fn as_mapping(object: &Value) -> (mapping: Option<&PyDict>) {
    let gil = Python::acquire_gil();
    object.handle.cast_as::<PyDict>(gil.python()).ok()
}

/// `PyDict::items`: the pairs of key and value that `mapping` holds at the
/// time of the call, in the order in which the dictionary walks them.
/// Nothing is claimed of the pairs.
#[verifier::external_body]
pub(crate) fn mapping_items(mapping: &PyDict) -> (items: Vec<(Value, Value)>) {
    let gil = Python::acquire_gil();
    let pairs = mapping.items(gil.python());
    pairs.into_iter().map(|(key, value)| (Value { handle: key }, Value { handle: value })).collect()
}

/// `PyObject::extract::<u64>`: `object` read as an unsigned integer, an error
/// when it is no integer or does not fit. Nothing is claimed of the outcome.
#[verifier::external_body]
pub(crate) fn as_u64(object: &Value) -> (outcome: Result<u64, PyErr>) {
    let gil = Python::acquire_gil();
    object.handle.extract::<u64>(gil.python())
}

/// `PyObject::get_type`: the type object of `object`. Nothing is claimed of
/// the result.
#[verifier::external_body]
pub(crate) fn type_of(object: &Value) -> (class: Value) {
    let gil = Python::acquire_gil();
    Value { handle: object.handle.get_type(gil.python()).into_object() }
}

/// `PyObject`'s `==`: whether both references point to one object, as `is`
/// does in Python. Nothing is claimed of the answer.
#[verifier::external_body]
pub(crate) fn same_object(first: &Value, second: &Value) -> (same: bool) {
    first.handle == second.handle
}

/// `PyErr`'s `Debug` form, for diagnostics; it breaks off where an object
/// fails to print itself. Nothing is claimed of the text.
#[verifier::external_body]
pub(crate) fn describe(error: &PyErr) -> (text: String) {
    let mut text = String::new();
    let _ = write!(text, "{:?}", error);
    text
}

} // verus!
