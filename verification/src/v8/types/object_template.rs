//! Object templates: blueprints of the objects created from them, such
//! as the global object of a context.
use vstd::prelude::*;

use super::any::{LocalValueAny, ValueView};
use crate::v8::isolate_scope::IsolateScope;

verus! {

/// What a template sets under a name.
pub enum TemplateEntry {
    /// A value.
    Value(LocalValueAny),
    /// An object made from another template.
    Object(LocalObjectTemplate),
}

/// A JavaScript object template: the names it sets and what it sets
/// under them, in the order they were added.
pub struct LocalObjectTemplate {
    pub entries: Vec<(String, TemplateEntry)>,
}

/// The abstract content of a template entry.
pub enum EntryView {
    Value(ValueView),
    Object(TemplateView),
}

/// The abstract content of a template.
pub struct TemplateView {
    pub entries: Seq<(Seq<char>, EntryView)>,
}

/// The abstract content of a template, entry by entry.
pub open spec fn template_view(t: &LocalObjectTemplate) -> TemplateView
    decreases t,
{
    TemplateView {
        entries: Seq::new(
            t.entries@.len(),
            |i: int|
                if 0 <= i < t.entries@.len() {
                    (
                        t.entries@[i].0@,
                        match t.entries@[i].1 {
                            TemplateEntry::Value(v) => EntryView::Value(v@),
                            TemplateEntry::Object(o) => {
                                proof {
                                    assert(decreases_to!(t => t.entries@[i].1));
                                }
                                EntryView::Object(template_view(&o))
                            },
                        },
                    )
                } else {
                    arbitrary()
                },
        ),
    }
}

/// Two entries of templates have the same content.
pub open spec fn same_entry(a: (String, TemplateEntry), b: (String, TemplateEntry)) -> bool {
    &&& a.0@ == b.0@
    &&& match (a.1, b.1) {
        (TemplateEntry::Value(x), TemplateEntry::Value(y)) => x@ == y@,
        (TemplateEntry::Object(x), TemplateEntry::Object(y)) => x@ == y@,
        _ => false,
    }
}

impl View for LocalObjectTemplate {
    type V = TemplateView;

    open spec fn view(&self) -> TemplateView {
        template_view(self)
    }
}

impl LocalObjectTemplate {
    /// Creates a new, empty template.
    pub fn new(isolate_scope: &IsolateScope) -> (r: Self)
        ensures
            r@.entries.len() == 0,
    {
        LocalObjectTemplate { entries: Vec::new() }
    }

    /// A copy of the template.
    pub fn duplicate(&self) -> (r: Self)
        ensures
            r@ == self@,
        decreases self,
    {
        let mut entries: Vec<(String, TemplateEntry)> = Vec::new();
        let n = self.entries.len();
        let mut i: usize = 0;
        while i < n
            invariant
                n == self.entries@.len(),
                i <= n,
                entries@.len() == i,
                forall|k: int| 0 <= k < i ==> #[trigger] same_entry(entries@[k], self.entries@[k]),
            decreases n - i,
        {
            let name = self.entries[i].0.clone();
            let entry = match &self.entries[i].1 {
                TemplateEntry::Value(v) => TemplateEntry::Value(v.duplicate()),
                TemplateEntry::Object(o) => {
                    assert(decreases_to!(self => self.entries@[i as int].1));
                    TemplateEntry::Object(o.duplicate())
                },
            };
            entries.push((name, entry));
            i = i + 1;
        }
        let r = LocalObjectTemplate { entries };
        assert forall|k: int| 0 <= k < n implies #[trigger] r@.entries[k] == self@.entries[k] by {
            assert(same_entry(r.entries@[k], self.entries@[k]));
        }
        assert(r@.entries =~= self@.entries);
        r
    }

    /// Sets `obj` under `name`: every object made from this template
    /// gets an object made from `obj` there.
    pub fn add_object(&mut self, name: &str, obj: &Self)
        ensures
            final(self)@.entries == old(self)@.entries.push((name@, EntryView::Object(obj@))),
    {
        let entry = TemplateEntry::Object(obj.duplicate());
        let ghost before = self@.entries;
        self.entries.push((String::from_str(name), entry));
        assert(self@.entries =~= before.push((name@, EntryView::Object(obj@))));
    }

    /// Sets the value `obj` under `name`.
    pub fn add_value(&mut self, name: &str, obj: &LocalValueAny)
        ensures
            final(self)@.entries == old(self)@.entries.push((name@, EntryView::Value(obj@))),
    {
        let entry = TemplateEntry::Value(obj.duplicate());
        let ghost before = self@.entries;
        self.entries.push((String::from_str(name), entry));
        assert(self@.entries =~= before.push((name@, EntryView::Value(obj@))));
    }
}

} // verus!
