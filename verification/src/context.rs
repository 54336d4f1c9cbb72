//! The life cycle of the runtime as the caller sees it: how initialisation
//! ends, and the interface tables that are resolved on first use and kept
//! from then on.
//!
//! A table is known here by its address, a plain number. An address of zero
//! is the runtime's way of saying that it has no such table.

use vstd::prelude::*;
use vstd::string::StringSliceAdditionalSpecFns;
use once_cell::unsync::OnceCell;
use crate::enums::{InitError, INIT_ERROR_INTERFACE_NOT_FOUND, INIT_ERROR_NONE};
use crate::bytes::append;
use crate::text::{is_terminated_text_of, terminated_text};

verus! {

/// `once_cell::unsync::OnceCell` is a cell that is written at most once.
#[verifier::external_type_specification]
#[verifier::external_body]
#[verifier::reject_recursive_types(T)]
pub struct ExOnceCell<T>(OnceCell<T>);

/// What a cell holds: nothing until it is written, then the value written.
pub uninterp spec fn cell_value(cell: OnceCell<usize>) -> Option<usize>;

/// `OnceCell::new` makes an empty cell.
#[verifier::external_body]
fn cell_new() -> (cell: OnceCell<usize>)
    ensures
        cell_value(cell).is_none(),
{
    OnceCell::new()
}

/// `OnceCell::get` hands out what the cell holds and leaves it as it is.
#[verifier::external_body]
fn cell_get(cell: &OnceCell<usize>) -> (value: Option<usize>)
    ensures
        value == cell_value(*cell),
{
    cell.get().copied()
}

/// `OnceCell::set` writes `value` into an empty cell and returns `Ok`; a
/// cell that holds a value keeps it, and `value` comes back as the error.
#[verifier::external_body]
fn cell_set(cell: &mut OnceCell<usize>, value: usize) -> (r: Result<(), usize>)
    ensures
        r.is_ok() == cell_value(*old(cell)).is_none(),
        r.is_ok() ==> cell_value(*final(cell)) == Some(value),
        r.is_err() ==> r.unwrap_err() == value,
        r.is_err() ==> cell_value(*final(cell)) == cell_value(*old(cell)),
{
    cell.set(value)
}

/// The interfaces of the runtime that are resolved on demand.
#[derive(Copy, Clone, PartialEq, Eq, Debug, Structural)]
pub enum Interface {
    System,
    Overlay,
    Input,
    Applications,
}

/// What to do for the table of an interface.
#[derive(Copy, Clone, PartialEq, Eq, Debug, Structural)]
pub enum TableStep {
    /// The table is resolved: use the one at this address.
    Use(usize),
    /// The table is not resolved yet: request it from the runtime.
    Request,
}

/// An initialised runtime: the token of the initialisation and the tables
/// resolved so far.
pub struct VRContext {
    token: isize,
    system: OnceCell<usize>,
    overlay: OnceCell<usize>,
    input: OnceCell<usize>,
    application: OnceCell<usize>,
}

/// What a context knows.
pub struct ContextView {
    pub token: isize,
    pub system: Option<usize>,
    pub overlay: Option<usize>,
    pub input: Option<usize>,
    pub application: Option<usize>,
}

impl ContextView {
    /// The address of the table of `which`, once it is resolved.
    pub open spec fn table(self, which: Interface) -> Option<usize> {
        match which {
            Interface::System => self.system,
            Interface::Overlay => self.overlay,
            Interface::Input => self.input,
            Interface::Applications => self.application,
        }
    }

    /// What to do for the table of `which`: the runtime is asked only where
    /// no table is known.
    pub open spec fn step(self, which: Interface) -> TableStep {
        match self.table(which) {
            Some(address) => TableStep::Use(address),
            None => TableStep::Request,
        }
    }

    /// The same knowledge with the table of `which` at `address`.
    pub open spec fn with_table(self, which: Interface, address: usize) -> ContextView {
        match which {
            Interface::System => ContextView { system: Some(address), ..self },
            Interface::Overlay => ContextView { overlay: Some(address), ..self },
            Interface::Input => ContextView { input: Some(address), ..self },
            Interface::Applications => ContextView { application: Some(address), ..self },
        }
    }

    /// A context that has resolved no table yet.
    pub open spec fn fresh(token: isize) -> ContextView {
        ContextView { token, system: None, overlay: None, input: None, application: None }
    }
}

impl View for VRContext {
    type V = ContextView;

    closed spec fn view(&self) -> ContextView {
        ContextView {
            token: self.token,
            system: cell_value(self.system),
            overlay: cell_value(self.overlay),
            input: cell_value(self.input),
            application: cell_value(self.application),
        }
    }
}

/// What a request for a table means: the table where the runtime named one,
/// the error it reported where the address is zero.
pub open spec fn table_outcome(address: usize, err: u32) -> Result<usize, InitError> {
    if address != 0 {
        Ok(address)
    } else {
        Err(InitError(err))
    }
}

/// The name under which the runtime hands out the function table of an
/// interface version.
pub open spec fn table_name(version: Seq<u8>) -> Seq<u8> {
    "FnTable:".spec_bytes() + version
}

/// The name to request the function table of the interface `version` with,
/// as the zero-terminated string that the runtime reads: the prefix and the
/// version up to the first zero byte, followed by exactly one zero byte. A
/// version that ends in its only zero byte keeps it; one without a zero byte
/// gets its terminator here.
pub fn function_table_name(pch_interface_version: &[u8]) -> (name: Vec<u8>)
    ensures
        is_terminated_text_of(name@, table_name(pch_interface_version@)),
{
    let mut name: Vec<u8> = Vec::new();
    append(&mut name, "FnTable:".as_bytes());
    append(&mut name, pch_interface_version);
    terminated_text(name)
}

/// The table that a request for one has brought, or the error.
pub fn function_table(address: usize, err: u32) -> (r: Result<usize, InitError>)
    ensures
        r == table_outcome(address, err),
{
    if address != 0 {
        Ok(address)
    } else {
        Err(InitError::from_raw(err))
    }
}

/// How the check of the interface version ended: well where the runtime
/// knows the version, with "interface not found" where it does not.
pub fn version_result(version_valid: bool) -> (r: Result<(), InitError>)
    ensures
        r == if version_valid {
            Ok::<(), InitError>(())
        } else {
            Err::<(), InitError>(InitError(INIT_ERROR_INTERFACE_NOT_FOUND))
        },
{
    if version_valid {
        Ok(())
    } else {
        Err(InitError::from_raw(INIT_ERROR_INTERFACE_NOT_FOUND))
    }
}

impl VRContext {
    /// The context of a runtime that was just initialised with `token`.
    pub fn new(token: isize) -> (context: VRContext)
        ensures
            context@ == ContextView::fresh(token),
    {
        VRContext {
            token,
            system: cell_new(),
            overlay: cell_new(),
            input: cell_new(),
            application: cell_new(),
        }
    }

    /// How the initialisation request ended: with a context where the
    /// runtime reported no error, with the error otherwise.
    pub fn started(token: isize, err: u32) -> (r: Result<VRContext, InitError>)
        ensures
            match r {
                Ok(context) => err == INIT_ERROR_NONE && context@ == ContextView::fresh(token),
                Err(e) => err != INIT_ERROR_NONE && e == InitError(err),
            },
    {
        if err == INIT_ERROR_NONE {
            Ok(VRContext::new(token))
        } else {
            Err(InitError::from_raw(err))
        }
    }

    /// Ends the use of the runtime: the context is gone, and what is left is
    /// the token of the initialisation that is to be released.
    pub fn shutdown(self) -> (token: isize)
        ensures
            token == self@.token,
    {
        self.token
    }

    /// The token of the initialisation.
    pub fn token(&self) -> (token: isize)
        ensures
            token == self@.token,
    {
        self.token
    }

    /// The address of the table of `which`, once it is resolved.
    pub fn table(&self, which: Interface) -> (address: Option<usize>)
        ensures
            address == self@.table(which),
    {
        match which {
            Interface::System => cell_get(&self.system),
            Interface::Overlay => cell_get(&self.overlay),
            Interface::Input => cell_get(&self.input),
            Interface::Applications => cell_get(&self.application),
        }
    }

    /// Decides whether the runtime has to be asked for the table of `which`:
    /// a table resolved earlier is used, and only an unresolved one is
    /// requested.
    pub fn lookup(&self, which: Interface) -> (step: TableStep)
        ensures
            step == self@.step(which),
    {
        match self.table(which) {
            Some(address) => TableStep::Use(address),
            None => TableStep::Request,
        }
    }

    /// Takes in what a request for the table of `which` has brought. A table
    /// is kept for good: the first one resolved stays, and it is the one
    /// returned. An error leaves the context as it is, so that the table can
    /// be requested again.
    pub fn resolve(&mut self, which: Interface, address: usize, err: u32) -> (r: Result<
        usize,
        InitError,
    >)
        ensures
            address == 0 ==> r == Err::<usize, InitError>(InitError(err)) && final(self)@ == old(self)@,
            address != 0 && old(self)@.table(which).is_none() ==> r == Ok::<usize, InitError>(
                address,
            ) && final(self)@ == old(self)@.with_table(which, address),
            address != 0 && old(self)@.table(which).is_some() ==> r == Ok::<usize, InitError>(
                old(self)@.table(which).unwrap(),
            ) && final(self)@ == old(self)@,
    {
        match function_table(address, err) {
            Ok(table) => {
                let stored = match which {
                    Interface::System => cell_set(&mut self.system, table),
                    Interface::Overlay => cell_set(&mut self.overlay, table),
                    Interface::Input => cell_set(&mut self.input, table),
                    Interface::Applications => cell_set(&mut self.application, table),
                };
                match stored {
                    Ok(_) => Ok(table),
                    Err(_) => match self.table(which) {
                        Some(first) => Ok(first),
                        None => Ok(table),
                    },
                }
            },
            Err(e) => Err(e),
        }
    }
}

} // verus!
