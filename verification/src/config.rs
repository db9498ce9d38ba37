//! Validation of the settings that a builder has collected.
//!
//! A builder is validated when it builds: it fails fast, with an error that
//! names every required field that was not set.

use crate::text::{join, push_joined};
use vstd::prelude::*;

verus! {

/// A field that a builder cannot build without.
#[derive(Clone, Copy, Debug, PartialEq, Eq, Structural)]
pub enum RequiredField {
    Issuer,
    Duration,
    Validation,
    Audience,
    UserPoolId,
    Region,
}

impl RequiredField {
    /// The message that reports the field as missing.
    pub open spec fn requirement(self) -> Seq<char> {
        match self {
            RequiredField::Issuer => "Issuer is required"@,
            RequiredField::Duration => "Duration is required"@,
            RequiredField::Validation => "Validation is required"@,
            RequiredField::Audience => "Audience is required"@,
            RequiredField::UserPoolId => "User pool id is required"@,
            RequiredField::Region => "Region is required"@,
        }
    }

    /// The message that reports the field as missing.
    pub fn message(&self) -> (message: &'static str)
        ensures
            message@ == self.requirement(),
    {
        match self {
            RequiredField::Issuer => "Issuer is required",
            RequiredField::Duration => "Duration is required",
            RequiredField::Validation => "Validation is required",
            RequiredField::Audience => "Audience is required",
            RequiredField::UserPoolId => "User pool id is required",
            RequiredField::Region => "Region is required",
        }
    }
}

/// Why a builder could not build: the fields that were not set, in the
/// order of their declaration. A builder that fails names at least one.
#[derive(Clone, Debug, PartialEq, Eq)]
pub struct BuildError {
    pub missing: Vec<RequiredField>,
}

/// The messages that report `fields` as missing, in order.
pub open spec fn requirements(fields: Seq<RequiredField>) -> Seq<Seq<char>> {
    Seq::new(fields.len(), |i: int| fields[i].requirement())
}

impl BuildError {
    /// The message of this error: the messages of the missing fields,
    /// separated by `"; "`.
    pub fn to_string(&self) -> (message: String)
        ensures
            message@ == join(requirements(self.missing@), "; "@),
    {
        let mut out = String::new();
        let mut i: usize = 0;
        while i < self.missing.len()
            invariant
                i <= self.missing.len(),
                out@ == join(requirements(self.missing@.take(i as int)), "; "@),
            decreases self.missing.len() - i,
        {
            proof {
                assert(requirements(self.missing@.take(i as int)).push(
                    self.missing@[i as int].requirement(),
                ) =~= requirements(self.missing@.take(i + 1)));
            }
            push_joined(
                &mut out,
                i > 0,
                Ghost(requirements(self.missing@.take(i as int))),
                "; ",
                self.missing[i].message(),
            );
            i += 1;
        }
        proof {
            assert(self.missing@.take(self.missing.len() as int) =~= self.missing@);
        }
        out
    }
}

/// The fields, among those given with whether each is set, that are not set.
pub open spec fn missing_fields(fields: Seq<(RequiredField, bool)>) -> Seq<RequiredField>
    decreases fields.len(),
{
    if fields.len() == 0 {
        Seq::empty()
    } else {
        let rest = missing_fields(fields.drop_last());
        if fields.last().1 {
            rest
        } else {
            rest.push(fields.last().0)
        }
    }
}

/// No field is reported as missing exactly if every field is set.
pub proof fn lemma_missing_fields_empty(fields: Seq<(RequiredField, bool)>)
    ensures
        missing_fields(fields).len() == 0 <==> forall|i: int|
            0 <= i < fields.len() ==> (#[trigger] fields[i]).1,
    decreases fields.len(),
{
    if fields.len() > 0 {
        lemma_missing_fields_empty(fields.drop_last());
        if missing_fields(fields).len() == 0 {
            assert forall|i: int| 0 <= i < fields.len() implies (#[trigger] fields[i]).1 by {
                if i < fields.len() - 1 {
                    assert(fields.drop_last()[i] == fields[i]);
                }
            }
        }
    }
}

/// Notes `field` as missing unless it is set.
pub(crate) fn note_missing(
    missing: &mut Vec<RequiredField>,
    checked: Ghost<Seq<(RequiredField, bool)>>,
    field: RequiredField,
    set: bool,
)
    requires
        old(missing)@ == missing_fields(checked@),
    ensures
        final(missing)@ == missing_fields(checked@.push((field, set))),
{
    proof {
        assert(checked@.push((field, set)).drop_last() =~= checked@);
    }
    if !set {
        missing.push(field);
    }
}

} // verus!
