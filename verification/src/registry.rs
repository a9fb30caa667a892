//! The parameter registry adapter.
//!
//! The host's parameter framework owns the parameters; the bridge only sees
//! a snapshot of them for the duration of one tick — identifier, current
//! normalized value and kind, in a stable order — and never mutates them
//! directly.  A mutation is instead expressed as a [`ParamOp`] triad that
//! the embedding performs against the host: `begin`, `set_normalized`,
//! `end`, in that strict order, because the host groups automation and undo
//! history between `begin` and `end`.
//!
//! All four parameter kinds go through the same three-phase contract; the
//! kind-specific denormalization stays behind the host's interface.

use vstd::prelude::*;
use vstd::string::StringExecFns;
use crate::strutil::str_eq;
use crate::wire::Number;

verus! {

/// The kinds of parameters a registry can hold.
#[derive(Clone, Copy, Debug, PartialEq, Eq, Structural)]
pub enum RPParamType {
    FloatParam,
    IntParam,
    BoolParam,
    EnumParam,
}

impl RPParamType {
    /// The kind's name, as written in a parameter declaration.
    pub open spec fn spec_name(self) -> Seq<char> {
        match self {
            RPParamType::FloatParam => "FloatParam"@,
            RPParamType::IntParam => "IntParam"@,
            RPParamType::BoolParam => "BoolParam"@,
            RPParamType::EnumParam => "EnumParam"@,
        }
    }

    /// The kind a name denotes, if any.
    pub open spec fn spec_from_name(name: Seq<char>) -> Option<RPParamType> {
        if name == "FloatParam"@ {
            Some(RPParamType::FloatParam)
        } else if name == "IntParam"@ {
            Some(RPParamType::IntParam)
        } else if name == "BoolParam"@ {
            Some(RPParamType::BoolParam)
        } else if name == "EnumParam"@ {
            Some(RPParamType::EnumParam)
        } else {
            None
        }
    }

    /// The kind's name, as written in a parameter declaration.
    pub fn name(self) -> (r: &'static str)
        ensures
            r@ == self.spec_name(),
    {
        match self {
            RPParamType::FloatParam => "FloatParam",
            RPParamType::IntParam => "IntParam",
            RPParamType::BoolParam => "BoolParam",
            RPParamType::EnumParam => "EnumParam",
        }
    }

    /// Reads a kind from its name; an unknown name is rejected.
    pub fn from_name(name: &str) -> (r: Option<RPParamType>)
        ensures
            r == Self::spec_from_name(name@),
    {
        if str_eq(name, "FloatParam") {
            Some(RPParamType::FloatParam)
        } else if str_eq(name, "IntParam") {
            Some(RPParamType::IntParam)
        } else if str_eq(name, "BoolParam") {
            Some(RPParamType::BoolParam)
        } else if str_eq(name, "EnumParam") {
            Some(RPParamType::EnumParam)
        } else {
            None
        }
    }
}

/// One registered parameter, as the bridge sees it during a tick.
#[derive(Debug, PartialEq, Eq)]
pub struct ParamInfo {
    /// The parameter's identifier: non-empty, and unique within a registry.
    pub id: String,
    /// The parameter's current normalized value.
    pub value: Number,
    /// The parameter's kind.
    pub kind: RPParamType,
}

/// The mathematical shape of a [`ParamInfo`].
#[verifier::ext_equal]
pub struct ParamInfoModel {
    pub id: Seq<char>,
    pub value: Number,
    pub kind: RPParamType,
}

impl View for ParamInfo {
    type V = ParamInfoModel;

    open spec fn view(&self) -> ParamInfoModel {
        ParamInfoModel { id: self.id@, value: self.value, kind: self.kind }
    }
}

impl DeepView for ParamInfo {
    type V = ParamInfoModel;

    open spec fn deep_view(&self) -> ParamInfoModel {
        self.view()
    }
}

/// One call of the host's three-phase transaction capability.
#[derive(Debug, PartialEq, Eq)]
pub enum ParamOp {
    /// Opens a transaction on the parameter.
    Begin { id: String },
    /// Sets the parameter's normalized value inside the open transaction.
    SetNormalized { id: String, value: Number },
    /// Closes the transaction on the parameter.
    End { id: String },
}

/// The mathematical shape of a [`ParamOp`].
#[verifier::ext_equal]
pub enum ParamOpModel {
    Begin { id: Seq<char> },
    SetNormalized { id: Seq<char>, value: Number },
    End { id: Seq<char> },
}

impl View for ParamOp {
    type V = ParamOpModel;

    open spec fn view(&self) -> ParamOpModel {
        match self {
            ParamOp::Begin { id } => ParamOpModel::Begin { id: id@ },
            ParamOp::SetNormalized { id, value } => (ParamOpModel::SetNormalized {
                id: id@,
                value: *value,
            }),
            ParamOp::End { id } => ParamOpModel::End { id: id@ },
        }
    }
}

impl DeepView for ParamOp {
    type V = ParamOpModel;

    open spec fn deep_view(&self) -> ParamOpModel {
        self.view()
    }
}

/// The transaction triad on one parameter: begin, set, end, in strict
/// order.
pub open spec fn triad(id: Seq<char>, value: Number) -> Seq<ParamOpModel> {
    seq![
        ParamOpModel::Begin { id: id },
        ParamOpModel::SetNormalized { id: id, value: value },
        ParamOpModel::End { id: id },
    ]
}

/// Whether some entry carries the identifier.
pub open spec fn contains_id(entries: Seq<ParamInfoModel>, id: Seq<char>) -> bool {
    exists|i: int| 0 <= i < entries.len() && entries[i].id == id
}

/// Well-formed entries: every identifier is non-empty, and no identifier
/// repeats.
pub open spec fn ids_wf(entries: Seq<ParamInfoModel>) -> bool {
    &&& forall|i: int| 0 <= i < entries.len() ==> entries[i].id.len() > 0
    &&& forall|i: int, j: int|
        0 <= i < j < entries.len() ==> entries[i].id != entries[j].id
}

/// The error of building a registry from invalid entries.
#[derive(Clone, Copy, Debug, PartialEq, Eq, Structural)]
pub enum RegistryError {
    /// Some entry has an empty identifier.
    EmptyId,
    /// Two entries share an identifier.
    DuplicateId,
}

/// The error of applying a change to an identifier no entry carries.
#[derive(Clone, Copy, Debug, PartialEq, Eq, Structural)]
pub struct UnknownParameter;

/// A registry snapshot: the registered parameters in their stable order.
pub struct Registry {
    entries: Vec<ParamInfo>,
}

impl View for Registry {
    type V = Seq<ParamInfoModel>;

    closed spec fn view(&self) -> Seq<ParamInfoModel> {
        self.entries.deep_view()
    }
}

impl Registry {
    /// Builds a registry from entries, rejecting an empty identifier first
    /// and then any repeated identifier.
    pub fn new(entries: Vec<ParamInfo>) -> (r: Result<Registry, RegistryError>)
        ensures
            match r {
                Result::Ok(reg) => reg@ == entries.deep_view() && ids_wf(entries.deep_view()),
                Result::Err(RegistryError::EmptyId) => exists|i: int|
                    0 <= i < entries.deep_view().len() && entries.deep_view()[i].id.len() == 0,
                Result::Err(RegistryError::DuplicateId) => (forall|i: int|
                    0 <= i < entries.deep_view().len() ==> entries.deep_view()[i].id.len() > 0)
                    && exists|i: int, j: int|
                    0 <= i < j < entries.deep_view().len() && entries.deep_view()[i].id
                        == entries.deep_view()[j].id,
            },
    {
        let n = entries.len();
        let mut i: usize = 0;
        while i < n
            invariant
                n == entries@.len(),
                i <= n,
                forall|k: int| 0 <= k < i ==> entries.deep_view()[k].id.len() > 0,
            decreases n - i,
        {
            if entries[i].id.as_str().is_empty() {
                proof {
                    assert(entries.deep_view()[i as int].id.len() == 0);
                }
                return Err(RegistryError::EmptyId);
            }
            i += 1;
        }
        let mut i: usize = 1;
        while i < n
            invariant
                n == entries@.len(),
                i <= n || n == 0,
                forall|k: int| 0 <= k < n ==> entries.deep_view()[k].id.len() > 0,
                forall|k: int, l: int|
                    0 <= k < l < i ==> entries.deep_view()[k].id != entries.deep_view()[l].id,
            decreases n - i,
        {
            let mut j: usize = 0;
            while j < i
                invariant
                    n == entries@.len(),
                    i < n,
                    j <= i,
                    forall|k: int| 0 <= k < n ==> entries.deep_view()[k].id.len() > 0,
                    forall|k: int|
                        0 <= k < j ==> entries.deep_view()[k].id != entries.deep_view()[i as int].id,
                decreases i - j,
            {
                if str_eq(entries[j].id.as_str(), entries[i].id.as_str()) {
                    proof {
                        let ev = entries.deep_view();
                        let jj = j as int;
                        let ii = i as int;
                        assert(0 <= jj && jj < ii && ii < ev.len() && ev[jj].id == ev[ii].id);
                        assert(exists|a: int, b: int|
                            0 <= a < b < ev.len() && ev[a].id == ev[b].id);
                    }
                    return Err(RegistryError::DuplicateId);
                }
                j += 1;
            }
            i += 1;
        }
        Ok(Registry { entries })
    }

    /// The number of registered parameters.
    pub fn len(&self) -> (r: usize)
        ensures
            r == self@.len(),
    {
        self.entries.len()
    }

    /// The parameter at one position of the stable order.
    pub fn get(&self, i: usize) -> (r: &ParamInfo)
        requires
            i < self@.len(),
        ensures
            r@ == self@[i as int],
    {
        &self.entries[i]
    }

    /// The position of the parameter carrying the identifier, if any.
    pub fn find(&self, id: &str) -> (r: Option<usize>)
        ensures
            match r {
                Option::Some(i) => i < self@.len() && self@[i as int].id == id@,
                Option::None => !contains_id(self@, id@),
            },
    {
        let n = self.entries.len();
        let mut i: usize = 0;
        while i < n
            invariant
                n == self@.len(),
                i <= n,
                forall|k: int| 0 <= k < i ==> self@[k].id != id@,
            decreases n - i,
        {
            if str_eq(self.entries[i].id.as_str(), id) {
                return Some(i);
            }
            i += 1;
        }
        None
    }

    /// Applies one normalized value to one parameter through the mandatory
    /// three-phase transaction, expressed as the [`ParamOp`] triad the
    /// embedding must perform in order.  An identifier no entry carries is
    /// rejected.
    pub fn apply(&self, id: &str, value: Number) -> (r: Result<Vec<ParamOp>, UnknownParameter>)
        requires
            value.in_unit_range(),
        ensures
            match r {
                Result::Ok(ops) => contains_id(self@, id@) && ops.deep_view() == triad(id@, value),
                Result::Err(e) => !contains_id(self@, id@),
            },
    {
        match self.find(id) {
            Some(_) => {
                let mut ops: Vec<ParamOp> = Vec::new();
                ops.push(ParamOp::Begin { id: String::from_str(id) });
                ops.push(ParamOp::SetNormalized { id: String::from_str(id), value: value });
                ops.push(ParamOp::End { id: String::from_str(id) });
                proof {
                    assert(ops.deep_view() =~= triad(id@, value));
                }
                Ok(ops)
            },
            None => Err(UnknownParameter),
        }
    }
}

} // verus!
