//! An explicit snapshot of the process environment.
//!
//! The continuous-integration resolver never reads ambient global state:
//! it takes a snapshot of name/value bindings as an argument, so that
//! resolution is a pure, independently testable function.

use vstd::prelude::*;

verus! {

/// One environment binding: a variable name and its value.
pub struct EnvVar {
    pub name: String,
    pub value: String,
}

/// A snapshot of the process environment as a list of bindings.
pub struct EnvSnapshot {
    pub vars: Vec<EnvVar>,
}

/// The value bound to `name`; the first binding wins when a name repeats.
pub open spec fn lookup(vars: Seq<EnvVar>, name: Seq<char>) -> Option<Seq<char>>
    decreases vars.len(),
{
    if vars.len() == 0 {
        None
    } else if vars[0].name@ == name {
        Some(vars[0].value@)
    } else {
        lookup(vars.drop_first(), name)
    }
}

/// The value bound to `name`, or the empty string when `name` is unbound.
pub open spec fn value_or_empty(vars: Seq<EnvVar>, name: Seq<char>) -> Seq<char> {
    match lookup(vars, name) {
        Some(v) => v,
        None => Seq::empty(),
    }
}

impl EnvSnapshot {
    /// A snapshot with no bindings.
    pub fn new() -> (r: EnvSnapshot)
        ensures
            r.vars@.len() == 0,
    {
        EnvSnapshot { vars: Vec::new() }
    }

    /// Appends one binding to the snapshot.
    pub fn push_var(&mut self, name: String, value: String)
        ensures
            final(self).vars@ == old(self).vars@.push(EnvVar { name, value }),
    {
        self.vars.push(EnvVar { name, value });
    }

    /// Looks `name` up among the snapshot's bindings, first match first.
    pub fn var(&self, name: &str) -> (r: Option<String>)
        ensures
            r matches Some(v) ==> lookup(self.vars@, name@) == Some(v@),
            r is None ==> lookup(self.vars@, name@) is None,
    {
        let key: String = name.to_owned();
        let n = self.vars.len();
        let mut i: usize = 0;
        proof {
            assert(self.vars@.skip(0) =~= self.vars@);
        }
        while i < n
            invariant
                i <= n,
                n == self.vars@.len(),
                key@ == name@,
                lookup(self.vars@.skip(i as int), name@) == lookup(self.vars@, name@),
            decreases n - i,
        {
            if self.vars[i].name == key {
                proof {
                    assert(self.vars@.skip(i as int)[0] == self.vars@[i as int]);
                }
                return Some(self.vars[i].value.clone());
            }
            proof {
                assert(self.vars@.skip(i as int).drop_first() =~= self.vars@.skip(
                    i as int + 1,
                ));
            }
            i += 1;
        }
        proof {
            assert(self.vars@.skip(n as int) =~= Seq::<EnvVar>::empty());
        }
        None
    }

    /// Whether `name` is bound in the snapshot.
    pub fn has(&self, name: &str) -> (r: bool)
        ensures
            r == (lookup(self.vars@, name@) is Some),
    {
        self.var(name).is_some()
    }

    /// The value of `name`, or the empty string when `name` is unbound.
    pub fn var_or_empty(&self, name: &str) -> (r: String)
        ensures
            r@ == value_or_empty(self.vars@, name@),
    {
        match self.var(name) {
            Some(v) => v,
            None => String::new(),
        }
    }
}

} // verus!
