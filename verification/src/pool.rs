//! A cache of template snapshots, one for each runtime type.
use vstd::prelude::*;

use crate::snapshot;
use crate::snapshot::{LoadError, MemoryImage, TemplateSnapshot};
use crate::strmap::StrMap;
use crate::text;
use crate::text::path_join;

verus! {

/// Template snapshots by runtime type. A template is loaded when it is first
/// asked for, and then kept until it is refreshed.
#[derive(Debug)]
pub struct TemplatePool {
    base_dir: String,
    templates: StrMap<TemplateSnapshot>,
}

/// What verification makes of a snapshot that was found on disk, or not found.
pub open spec fn loaded_from(
    found: Result<(TemplateSnapshot, MemoryImage), LoadError>,
    loaded: Result<TemplateSnapshot, LoadError>,
) -> bool {
    match found {
        Ok((template, image)) => snapshot::load_outcome(template, image, true, loaded),
        Err(e) => loaded == Err::<TemplateSnapshot, LoadError>(e),
    }
}

impl View for TemplatePool {
    type V = Map<Seq<char>, TemplateSnapshot>;

    closed spec fn view(&self) -> Map<Seq<char>, TemplateSnapshot> {
        self.templates@
    }
}

impl TemplatePool {
    /// The directory under which templates are stored.
    pub closed spec fn root(self) -> Seq<char> {
        self.base_dir@
    }

    /// The runtime types in the order in which they were first cached.
    pub closed spec fn cached(self) -> Seq<Seq<char>> {
        self.templates.keys()
    }

    /// An empty pool over the templates stored in `base_dir`.
    pub fn new(base_dir: &str) -> (p: Self)
        ensures
            p.root() == base_dir@,
            p@ == Map::<Seq<char>, TemplateSnapshot>::empty(),
            p.cached() == Seq::<Seq<char>>::empty(),
    {
        TemplatePool { base_dir: base_dir.to_owned(), templates: StrMap::new() }
    }

    /// The cached template for a runtime type.
    pub fn get(&self, runtime_type: &str) -> (r: Option<&TemplateSnapshot>)
        ensures
            r is Some <==> self@.dom().contains(runtime_type@),
            r is Some ==> *r->0 == self@[runtime_type@],
    {
        self.templates.get(runtime_type)
    }

    /// The template for a runtime type. One that is not cached is read with `read`
    /// from the runtime type's directory below the pool's, and cached if its
    /// memory has the recorded digest.
    pub fn get_or_load<F: FnOnce(String) -> Result<(TemplateSnapshot, MemoryImage), LoadError>>(
        &mut self,
        runtime_type: &str,
        read: F,
    ) -> (r: Result<&TemplateSnapshot, LoadError>)
        requires
            !old(self)@.dom().contains(runtime_type@) ==> forall|dir: String|
                dir@ == text::joined(old(self).root(), runtime_type@) ==> #[trigger] read.requires(
                    (dir,),
                ),
        ensures
            final(self).root() == old(self).root(),
            old(self)@.dom().contains(runtime_type@) ==> r is Ok && *r->Ok_0 == old(
                self,
            )@[runtime_type@] && final(self)@ == old(self)@,
            !old(self)@.dom().contains(runtime_type@) ==> exists|
                dir: String,
                found: Result<(TemplateSnapshot, MemoryImage), LoadError>,
                loaded: Result<TemplateSnapshot, LoadError>,
            |
                {
                    &&& dir@ == text::joined(old(self).root(), runtime_type@)
                    &&& #[trigger] read.ensures((dir,), found)
                    &&& #[trigger] loaded_from(found, loaded)
                    &&& match loaded {
                        Ok(t) => r is Ok && *r->Ok_0 == t && final(self)@ == old(self)@.insert(
                            runtime_type@,
                            t,
                        ),
                        Err(e) => r is Err && r->Err_0 == e && final(self)@ == old(self)@,
                    }
                },
    {
        if !self.templates.contains_key(runtime_type) {
            let dir = path_join(self.base_dir.as_str(), runtime_type);
            let found = read(dir);
            let ghost was_found = found;
            let loaded = match found {
                Ok((template, image)) => TemplateSnapshot::load(template, &image, true),
                Err(e) => Err(e),
            };
            assert(loaded_from(was_found, loaded));
            match loaded {
                Ok(t) => {
                    self.templates.insert(runtime_type.to_owned(), t);
                },
                Err(e) => {
                    return Err(e);
                },
            }
        }
        Ok(self.templates.get(runtime_type).unwrap())
    }

    /// Caches a template that was just made.
    pub fn register(&mut self, runtime_type: &str, template: TemplateSnapshot)
        ensures
            final(self).root() == old(self).root(),
            final(self)@ == old(self)@.insert(runtime_type@, template),
    {
        self.templates.insert(runtime_type.to_owned(), template);
    }

    /// Drops the cached template of a runtime type, so that it is loaded anew
    /// when it is next asked for.
    pub fn refresh(&mut self, runtime_type: &str)
        ensures
            final(self).root() == old(self).root(),
            final(self)@ == old(self)@.remove(runtime_type@),
    {
        self.templates.remove(runtime_type);
    }

    /// The cached runtime types, each once.
    pub fn cached_runtime_types(&self) -> (r: Vec<&str>)
        ensures
            r@.map_values(|s: &str| s@) == self.cached(),
            self.cached().no_duplicates(),
            forall|k: Seq<char>| #[trigger] self@.dom().contains(k) <==> self.cached().contains(k),
    {
        let mut r: Vec<&str> = Vec::new();
        let n: usize = self.templates.len();
        let mut i: usize = 0;
        while i < n
            invariant
                i <= n == self.templates.keys().len(),
                r@.len() == i,
                forall|j: int| 0 <= j < i ==> (#[trigger] r@[j])@ == self.templates.keys()[j],
            decreases n - i,
        {
            r.push(self.templates.key_at(i).as_str());
            i = i + 1;
        }
        proof {
            assert(r@.map_values(|s: &str| s@) =~= self.cached());
            crate::strmap::lemma_keys(self.templates);
            assert forall|k: Seq<char>| self.cached().contains(k) implies #[trigger] self@.dom().contains(
                k,
            ) by {
                let i = self.cached().index_of(k);
                assert(self.templates@.dom().contains(self.templates.keys()[i]));
            }
        }
        r
    }
}

/// A registered template is served until it is refreshed, and is then no longer
/// cached, so that it has to be read anew. Other runtime types are not touched.
pub proof fn lemma_served_until_refreshed(
    cache: Map<Seq<char>, TemplateSnapshot>,
    runtime_type: Seq<char>,
    template: TemplateSnapshot,
    other: Seq<char>,
)
    ensures
        cache.insert(runtime_type, template).dom().contains(runtime_type),
        cache.insert(runtime_type, template)[runtime_type] == template,
        !cache.insert(runtime_type, template).remove(runtime_type).dom().contains(runtime_type),
        other != runtime_type ==> {
            let after = cache.insert(runtime_type, template).remove(runtime_type);
            &&& after.dom().contains(other) <==> cache.dom().contains(other)
            &&& cache.dom().contains(other) ==> after[other] == cache[other]
        },
{
}

} // verus!
