//! The mirror registry: the mapping from namespace to download-URL
//! template, seeded with the built-in default and overlaid with user
//! overrides, last writer per namespace winning.

use crate::text::{replace_all, replaced, str_eq};
use vstd::prelude::*;
use vstd::string::StringExecFns;

verus! {

/// One mirror: a URL template with the literal placeholders `$name`
/// and `$version`.
pub struct PkgMirror {
    pub path: String,
}

impl PkgMirror {
    pub fn new(path: String) -> (r: Self)
        ensures
            r.path@ == path@,
    {
        PkgMirror { path }
    }

    /// The download URL for one package: the template with `$name`
    /// and then `$version` substituted literally.
    pub fn package_download_url(&self, pkg_name: &str, pkg_version: &str) -> (r: String)
        ensures
            r@ == url_from_template(self.path@, pkg_name@, pkg_version@),
    {
        let named = replace_all(self.path.as_str(), "$name", pkg_name);
        replace_all(named.as_str(), "$version", pkg_version)
    }
}

/// A template with `$name` and then `$version` substituted.
pub open spec fn url_from_template(template: Seq<char>, name: Seq<char>, version: Seq<char>) -> Seq<
    char,
> {
    replaced(replaced(template, "$name"@, name), "$version"@, version)
}

/// The built-in template for the `preview` namespace.
pub open spec fn default_preview_template() -> Seq<char> {
    "https://packages.typst.org/preview/$name-$version.tar.gz"@
}

/// The template that an entry list associates with a namespace: the
/// value of the last entry carrying that key, if any.
pub open spec fn lookup_spec(entries: Seq<(String, PkgMirror)>, namespace: Seq<char>) -> Option<
    Seq<char>,
>
    decreases entries.len(),
{
    if entries.len() == 0 {
        None
    } else if entries.last().0@ == namespace {
        Some(entries.last().1.path@)
    } else {
        lookup_spec(entries.drop_last(), namespace)
    }
}

/// The template that an override list assigns to a namespace: the
/// last entry carrying that key, if any.
pub open spec fn override_spec(overrides: Seq<(String, String)>, namespace: Seq<char>) -> Option<
    Seq<char>,
>
    decreases overrides.len(),
{
    if overrides.len() == 0 {
        None
    } else if overrides.last().0@ == namespace {
        Some(overrides.last().1@)
    } else {
        override_spec(overrides.drop_last(), namespace)
    }
}

/// The registry: namespace to mirror, later entries overriding
/// earlier ones.
pub struct MirrorConfiguration {
    pub entries: Vec<(String, PkgMirror)>,
}

impl MirrorConfiguration {
    /// The template registered for a namespace.
    pub open spec fn template_for(self, namespace: Seq<char>) -> Option<Seq<char>> {
        lookup_spec(self.entries@, namespace)
    }

    /// Is the namespace registered?
    pub open spec fn contains_ns(self, namespace: Seq<char>) -> bool {
        self.template_for(namespace) is Some
    }

    /// Registers a mirror for a namespace, replacing any earlier one.
    pub fn insert(&mut self, namespace: String, mirror: PkgMirror)
        ensures
            final(self).template_for(namespace@) == Some(mirror.path@),
            forall|k: Seq<char>|
                k != namespace@ ==> #[trigger] final(self).template_for(k) == old(
                    self,
                ).template_for(k),
    {
        let ghost pre = self.entries@;
        self.entries.push((namespace, mirror));
        proof {
            assert(self.entries@.drop_last() =~= pre);
            assert forall|k: Seq<char>| k != namespace@ implies #[trigger] lookup_spec(
                self.entries@,
                k,
            ) == lookup_spec(pre, k) by {
                assert(self.entries@.last().0@ == namespace@);
            }
        }
    }

    /// Looks a namespace up, returning its URL template.
    pub fn lookup(&self, namespace: &str) -> (r: Option<String>)
        ensures
            match r {
                Some(t) => self.template_for(namespace@) == Some(t@),
                None => self.template_for(namespace@) is None,
            },
    {
        let mut i: usize = self.entries.len();
        proof {
            assert(self.entries@.take(self.entries@.len() as int) =~= self.entries@);
        }
        while i > 0
            invariant
                i <= self.entries@.len(),
                lookup_spec(self.entries@, namespace@) == lookup_spec(
                    self.entries@.take(i as int),
                    namespace@,
                ),
            decreases i,
        {
            i -= 1;
            let ghost prefix = self.entries@.take(i + 1);
            proof {
                assert(prefix.last() == self.entries@[i as int]);
                assert(prefix.drop_last() =~= self.entries@.take(i as int));
            }
            let pair = &self.entries[i];
            if str_eq(pair.0.as_str(), namespace) {
                return Some(pair.1.path.clone());
            }
        }
        proof {
            assert(self.entries@.take(0).len() == 0);
        }
        None
    }

    /// Is the namespace registered?
    pub fn contains(&self, namespace: &str) -> (r: bool)
        ensures
            r == self.contains_ns(namespace@),
    {
        self.lookup(namespace).is_some()
    }
}

impl Default for MirrorConfiguration {
    /// The built-in registry: `preview` mapped to the canonical
    /// host's template, and nothing else.
    fn default() -> (r: Self)
        ensures
            r.template_for("preview"@) == Some(default_preview_template()),
            forall|k: Seq<char>|
                k != "preview"@ ==> #[trigger] r.template_for(k) is None,
    {
        let mut entries: Vec<(String, PkgMirror)> = Vec::new();
        entries.push(
            (
                String::from_str("preview"),
                PkgMirror::new(
                    String::from_str("https://packages.typst.org/preview/$name-$version.tar.gz"),
                ),
            ),
        );
        let r = MirrorConfiguration { entries };
        proof {
            assert(r.entries@.drop_last() =~= Seq::<(String, PkgMirror)>::empty());
            assert forall|k: Seq<char>| k != "preview"@ implies #[trigger] lookup_spec(
                r.entries@,
                k,
            ) is None by {
                assert(lookup_spec(Seq::<(String, PkgMirror)>::empty(), k) is None);
            }
        }
        r
    }
}

/// The registry that a list of user overrides yields: the built-in
/// default with every override applied in order, last writer winning
/// per namespace.
pub fn configured_mirrors(overrides: Vec<(String, String)>) -> (r: MirrorConfiguration)
    ensures
        forall|k: Seq<char>|
            #[trigger] r.template_for(k) == (match override_spec(overrides@, k) {
                Some(t) => Some(t),
                None => if k == "preview"@ {
                    Some(default_preview_template())
                } else {
                    None::<Seq<char>>
                },
            }),
        r.contains_ns("preview"@),
{
    let mut r = MirrorConfiguration::default();
    let mut i: usize = 0;
    let ghost all = overrides@;
    proof {
        assert(all.take(0).len() == 0);
    }
    let n = overrides.len();
    while i < n
        invariant
            n == all.len(),
            i <= n,
            overrides@ == all,
            forall|k: Seq<char>|
                #[trigger] r.template_for(k) == (match override_spec(all.take(i as int), k) {
                    Some(t) => Some(t),
                    None => if k == "preview"@ {
                        Some(default_preview_template())
                    } else {
                        None::<Seq<char>>
                    },
                }),
        decreases n - i,
    {
        let ghost pre = r;
        let ns = overrides[i].0.clone();
        let template = overrides[i].1.clone();
        r.insert(ns, PkgMirror::new(template));
        proof {
            let prefix1 = all.take(i + 1);
            assert(prefix1.drop_last() =~= all.take(i as int));
            assert(prefix1.last() == all[i as int]);
            assert forall|k: Seq<char>| #[trigger] r.template_for(k) == (match override_spec(
                prefix1,
                k,
            ) {
                Some(t) => Some(t),
                None => if k == "preview"@ {
                    Some(default_preview_template())
                } else {
                    None::<Seq<char>>
                },
            }) by {
                if k == all[i as int].0@ {
                    assert(override_spec(prefix1, k) == Some(all[i as int].1@));
                } else {
                    assert(override_spec(prefix1, k) == override_spec(all.take(i as int), k));
                    assert(r.template_for(k) == pre.template_for(k));
                }
            }
        }
        i += 1;
    }
    proof {
        assert(all.take(n as int) =~= all);
    }
    r
}

} // verus!
