//! The style resolver: resolves a style identifier to its effective
//! (possibly inherited) formatting properties. Inheritance follows the
//! `based_on` chain; as the documented depth guard, a chain is followed for
//! at most as many steps as there are style definitions, so a cyclic chain
//! resolves as if it ended without a heading level.

use vstd::prelude::*;
use crate::doc::StyleDef;

verus! {

/// Effective formatting properties of a resolved style.
pub struct StyleProps {
    pub heading_level: Option<u8>,
}

/// The first style definition whose id reads as `id`, if any.
pub open spec fn style_find(styles: Seq<StyleDef>, id: Seq<char>) -> Option<StyleDef>
    decreases styles.len(),
{
    if styles.len() == 0 {
        None
    } else if styles[0].id@ == id {
        Some(styles[0])
    } else {
        style_find(styles.drop_first(), id)
    }
}

/// The effective heading level of the style named `id`, following at most
/// `depth` definitions along the inheritance chain.
pub open spec fn effective_heading(styles: Seq<StyleDef>, id: Seq<char>, depth: nat) -> Option<u8>
    decreases depth,
{
    if depth == 0 {
        None
    } else {
        match style_find(styles, id) {
            None => None,
            Some(d) => match d.heading_level {
                Some(h) => Some(h),
                None => match d.based_on {
                    Some(b) => effective_heading(styles, b@, (depth - 1) as nat),
                    None => None,
                },
            },
        }
    }
}

/// Resolves a style identifier to effective properties; built once from the
/// document's style table and read-only thereafter.
pub struct StyleResolver {
    pub styles: Vec<StyleDef>,
}

impl StyleResolver {
    /// The effective heading level this resolver gives to `id`.
    pub open spec fn spec_heading(&self, id: Seq<char>) -> Option<u8> {
        effective_heading(self.styles@, id, self.styles@.len())
    }

    pub fn new(styles: Vec<StyleDef>) -> (r: Self)
        ensures
            r.styles@ == styles@,
    {
        StyleResolver { styles }
    }

    /// Resolves a style id to its effective properties.
    pub fn resolve(&self, id: &String) -> (r: StyleProps)
        ensures
            r.heading_level == self.spec_heading(id@),
    {
        let h = resolve_heading(&self.styles, id, self.styles.len());
        StyleProps { heading_level: h }
    }
}

fn find_style<'a>(styles: &'a Vec<StyleDef>, id: &String) -> (r: Option<&'a StyleDef>)
    ensures
        match r {
            Some(d) => style_find(styles@, id@) == Some(*d),
            None => style_find(styles@, id@) is None,
        },
{
    let n = styles.len();
    let mut i: usize = 0;
    proof {
        assert(styles@.skip(0) =~= styles@);
    }
    while i < n
        invariant
            n == styles@.len(),
            i <= n,
            style_find(styles@, id@) == style_find(styles@.skip(i as int), id@),
        decreases n - i,
    {
        proof {
            assert(styles@.skip(i as int)[0] == styles@[i as int]);
            assert(styles@.skip(i as int).drop_first() =~= styles@.skip(i as int + 1));
        }
        if crate::lookup::string_eq(&styles[i].id, id) {
            return Some(&styles[i]);
        }
        i = i + 1;
    }
    proof {
        assert(styles@.skip(n as int) =~= Seq::<StyleDef>::empty());
    }
    None
}

fn resolve_heading(styles: &Vec<StyleDef>, id: &String, depth: usize) -> (r: Option<u8>)
    ensures
        r == effective_heading(styles@, id@, depth as nat),
    decreases depth,
{
    if depth == 0 {
        return None;
    }
    match find_style(styles, id) {
        None => None,
        Some(d) => match d.heading_level {
            Some(h) => Some(h),
            None => match &d.based_on {
                Some(b) => resolve_heading(styles, b, depth - 1),
                None => None,
            },
        },
    }
}

} // verus!
