use vstd::prelude::*;
use crate::text::same_chars;
use crate::value::Value;

verus! {

/// The value that `name` is bound to: the latest binding of that name wins.
pub open spec fn lookup(bindings: Seq<(String, Value)>, name: Seq<char>) -> Option<Value>
    decreases bindings.len(),
{
    if bindings.len() == 0 {
        None
    } else if bindings.last().0@ == name {
        Some(bindings.last().1)
    } else {
        lookup(bindings.drop_last(), name)
    }
}

/// The variable environment a template is rendered against.
#[derive(Debug)]
pub struct Context {
    pub bindings: Vec<(String, Value)>,
}

impl Context {
    pub fn new() -> (r: Context)
        ensures
            r.bindings@.len() == 0,
    {
        Context { bindings: Vec::new() }
    }

    /// Binds `name` to `val`, shadowing any earlier binding of it.
    pub fn set_val(&mut self, name: &str, val: Value)
        ensures
            final(self).bindings@.len() == old(self).bindings@.len() + 1,
            final(self).bindings@.drop_last() == old(self).bindings@,
            final(self).bindings@.last().0@ == name@,
            final(self).bindings@.last().1 == val,
            lookup(final(self).bindings@, name@) == Some(val),
            forall|other: Seq<char>|
                other != name@ ==> lookup(final(self).bindings@, other) == lookup(
                    old(self).bindings@,
                    other,
                ),
    {
        broadcast use vstd::string::to_string_from_display_ensures_for_str;

        let key = name.to_string();
        let ghost before = self.bindings@;
        self.bindings.push((key, val));
        assert(self.bindings@.drop_last() =~= before);
    }

    /// The value bound to `name`, if any.
    pub fn get_val(&self, name: &str) -> (r: Option<&Value>)
        ensures
            match r {
                Some(v) => lookup(self.bindings@, name@) == Some(*v),
                None => lookup(self.bindings@, name@) is None,
            },
    {
        let mut i: usize = self.bindings.len();
        assert(self.bindings@.take(i as int) =~= self.bindings@);
        while i > 0
            invariant
                i <= self.bindings@.len(),
                lookup(self.bindings@, name@) == lookup(self.bindings@.take(i as int), name@),
            decreases i,
        {
            let ghost prefix = self.bindings@.take(i as int);
            assert(prefix.drop_last() =~= self.bindings@.take(i - 1));
            if same_chars(self.bindings[i - 1].0.as_str(), name) {
                return Some(&self.bindings[i - 1].1);
            }
            i = i - 1;
        }
        None
    }
}

} // verus!
