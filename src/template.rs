use vstd::prelude::*;

use crate::text::{chars_of, replace_all, replace_chars};

verus! {

/// The marker `{{key}}` that stands for `key` in a template.
pub open spec fn placeholder(key: Seq<char>) -> Seq<char> {
    seq!['{', '{'] + key + seq!['}', '}']
}

/// `doc` with each pair `(key, value)` of `args` substituted in turn: every
/// occurrence of `{{key}}` becomes `value`.
pub open spec fn fill_all(doc: Seq<char>, args: Seq<(Seq<char>, Seq<char>)>) -> Seq<char>
    decreases args.len(),
{
    if args.len() == 0 {
        doc
    } else {
        fill_all(replace_all(doc, placeholder(args[0].0), args[0].1), args.drop_first())
    }
}

/// The first text stored under `name`, if any.
pub open spec fn lookup(entries: Seq<(Seq<char>, Seq<char>)>, name: Seq<char>) -> Option<
    Seq<char>,
>
    decreases entries.len(),
{
    if entries.len() == 0 {
        None
    } else if entries[0].0 == name {
        Some(entries[0].1)
    } else {
        lookup(entries.drop_first(), name)
    }
}

/// What the member `key` of the JSON document `doc` serialises to, or `None`
/// where `doc` is not JSON.
pub uninterp spec fn member_of(doc: Seq<char>, key: Seq<char>) -> Option<Seq<char>>;

/// Relies on `serde_json::from_str::<Value>` (parse), indexing a `Value` by a
/// string key (`Null` where absent or not an object) and `Value`'s `Display`
/// (compact JSON): the result depends on `doc` and `key` alone.
#[verifier::external_body]
fn member_text(doc: &str, key: &str) -> (r: Option<String>)
    ensures
        match r {
            Some(t) => member_of(doc@, key@) == Some(t@),
            None => member_of(doc@, key@) is None,
        },
{
    match serde_json::from_str::<serde_json::Value>(doc) {
        Ok(v) => Some(v[key].to_string()),
        Err(_) => None,
    }
}

/// What the `blocks` member of the JSON document `doc` serialises to, or
/// `None` where `doc` is not JSON.
pub open spec fn blocks_member(doc: Seq<char>) -> Option<Seq<char>> {
    member_of(doc, "blocks"@)
}

/// Why a template could not be produced.
#[derive(Debug, Clone, Copy, PartialEq, Eq, Structural)]
pub enum TemplateError {
    /// No template of that name.
    NotFound,
    /// The document is not well-formed JSON where its structure is needed.
    InvalidFormat,
}

/// Named template texts, in two namespaces: message blocks and modal views.
pub struct TemplateStore {
    pub blocks: Vec<(String, String)>,
    pub modals: Vec<(String, String)>,
}

fn find(entries: &Vec<(String, String)>, name: &String) -> (r: Option<String>)
    ensures
        match r {
            Some(t) => lookup(entries.deep_view(), name@) == Some(t@),
            None => lookup(entries.deep_view(), name@) is None,
        },
{
    let mut i: usize = 0;
    assert(entries.deep_view().subrange(0, entries.len() as int) =~= entries.deep_view());
    while i < entries.len()
        invariant
            i <= entries.len(),
            lookup(entries.deep_view().subrange(i as int, entries.len() as int), name@) == lookup(
                entries.deep_view(),
                name@,
            ),
        decreases entries.len() - i,
    {
        let ghost rest = entries.deep_view().subrange(i as int, entries.len() as int);
        assert(rest.drop_first() =~= entries.deep_view().subrange(i + 1, entries.len() as int));
        if entries[i].0 == *name {
            return Some(entries[i].1.clone());
        }
        i = i + 1;
    }
    None
}

impl TemplateStore {
    /// An empty store.
    pub fn new() -> (r: TemplateStore)
        ensures
            r.blocks@.len() == 0,
            r.modals@.len() == 0,
    {
        TemplateStore { blocks: Vec::new(), modals: Vec::new() }
    }

    /// Adds a block template; an earlier one of the same name keeps precedence.
    pub fn add_block(&mut self, name: String, text: String)
        ensures
            final(self).blocks.deep_view() == old(self).blocks.deep_view().push((name@, text@)),
            final(self).modals.deep_view() == old(self).modals.deep_view(),
    {
        self.blocks.push((name, text));
        assert(self.blocks.deep_view() =~= old(self).blocks.deep_view().push((name@, text@)));
    }

    /// Adds a modal template; an earlier one of the same name keeps precedence.
    pub fn add_modal(&mut self, name: String, text: String)
        ensures
            final(self).modals.deep_view() == old(self).modals.deep_view().push((name@, text@)),
            final(self).blocks.deep_view() == old(self).blocks.deep_view(),
    {
        self.modals.push((name, text));
        assert(self.modals.deep_view() =~= old(self).modals.deep_view().push((name@, text@)));
    }
}

/// Substitutes each pair of `args`, in order, into `doc`.
pub fn fill_text(doc: &String, args: &Vec<(String, String)>) -> (r: String)
    ensures
        r@ == fill_all(doc@, args.deep_view()),
{
    let mut cur = doc.clone();
    let mut k: usize = 0;
    assert(args.deep_view().subrange(0, args.len() as int) =~= args.deep_view());
    while k < args.len()
        invariant
            k <= args.len(),
            fill_all(cur@, args.deep_view().subrange(k as int, args.len() as int)) == fill_all(
                doc@,
                args.deep_view(),
            ),
        decreases args.len() - k,
    {
        let ghost rest = args.deep_view().subrange(k as int, args.len() as int);
        assert(rest.drop_first() =~= args.deep_view().subrange(k + 1, args.len() as int));
        let mut key = String::new();
        key.push('{');
        key.push('{');
        key.push_str(args[k].0.as_str());
        key.push('}');
        key.push('}');
        assert(key@ =~= placeholder(args@[k as int].0@));
        let chars = chars_of(cur.as_str());
        let pat = chars_of(key.as_str());
        cur = replace_chars(&chars, &pat, args[k].1.as_str());
        k = k + 1;
    }
    assert(args.deep_view().subrange(args.len() as int, args.len() as int) =~= Seq::<
        (Seq<char>, Seq<char>),
    >::empty());
    cur
}


/// A message-blocks document: the template's name and its current text.
pub struct SlackBlock {
    pub name: String,
    pub data: String,
}

impl SlackBlock {
    /// A block of the given template name, with no text yet.
    pub fn new(name: String) -> (r: SlackBlock)
        ensures
            r.name@ == name@,
            r.data@ == Seq::<char>::empty(),
    {
        SlackBlock { name, data: String::new() }
    }

    /// Takes the text of the block template named `self.name` from `store`.
    pub fn load(&mut self, store: &TemplateStore) -> (r: Result<(), TemplateError>)
        ensures
            final(self).name@ == old(self).name@,
            match lookup(store.blocks.deep_view(), old(self).name@) {
                Some(t) => r is Ok && final(self).data@ == t,
                None => r == Err::<(), TemplateError>(TemplateError::NotFound) && final(self).data@
                    == old(self).data@,
            },
    {
        match find(&store.blocks, &self.name) {
            Some(t) => {
                self.data = t;
                Ok(())
            },
            None => Err(TemplateError::NotFound),
        }
    }

    /// Substitutes each pair of `args`, in order, into the text.
    pub fn fill(&mut self, args: &Vec<(String, String)>)
        ensures
            final(self).name@ == old(self).name@,
            final(self).data@ == fill_all(old(self).data@, args.deep_view()),
    {
        self.data = fill_text(&self.data, args);
    }

    /// Keeps only the `blocks` member of the text, re-serialised.
    pub fn trim(&mut self) -> (r: Result<(), TemplateError>)
        ensures
            final(self).name@ == old(self).name@,
            match blocks_member(old(self).data@) {
                Some(t) => r is Ok && final(self).data@ == t,
                None => r == Err::<(), TemplateError>(TemplateError::InvalidFormat)
                    && final(self).data@ == old(self).data@,
            },
    {
        match member_text(self.data.as_str(), "blocks") {
            Some(t) => {
                self.data = t;
                Ok(())
            },
            None => Err(TemplateError::InvalidFormat),
        }
    }
}

/// A modal-view document, with the trigger that will open it.
pub struct SlackModal {
    pub name: String,
    pub data: String,
    pub trigger: String,
}

impl SlackModal {
    /// A modal of the given template name and trigger, with no text yet.
    pub fn new(name: String, trigger: String) -> (r: SlackModal)
        ensures
            r.name@ == name@,
            r.trigger@ == trigger@,
            r.data@ == Seq::<char>::empty(),
    {
        SlackModal { name, data: String::new(), trigger }
    }

    /// Takes the text of the modal template named `self.name` from `store`.
    pub fn load(&mut self, store: &TemplateStore) -> (r: Result<(), TemplateError>)
        ensures
            final(self).name@ == old(self).name@,
            final(self).trigger@ == old(self).trigger@,
            match lookup(store.modals.deep_view(), old(self).name@) {
                Some(t) => r is Ok && final(self).data@ == t,
                None => r == Err::<(), TemplateError>(TemplateError::NotFound) && final(self).data@
                    == old(self).data@,
            },
    {
        match find(&store.modals, &self.name) {
            Some(t) => {
                self.data = t;
                Ok(())
            },
            None => Err(TemplateError::NotFound),
        }
    }

    /// Substitutes each pair of `args`, in order, into the text.
    pub fn fill(&mut self, args: &Vec<(String, String)>)
        ensures
            final(self).name@ == old(self).name@,
            final(self).trigger@ == old(self).trigger@,
            final(self).data@ == fill_all(old(self).data@, args.deep_view()),
    {
        self.data = fill_text(&self.data, args);
    }
}

} // verus!
