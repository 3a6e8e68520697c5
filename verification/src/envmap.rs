//! A snapshot of the process environment, and the four-tier precedence
//! lookup for override variables.
//!
//! The snapshot is a list of name/value pairs handed in by the caller; a
//! lookup takes the first entry whose name matches, so the resolver is a
//! pure function of its inputs. Every name consulted, found or not, is
//! recorded so that the caller can re-declare it as a rerun trigger.

use vstd::prelude::*;

use crate::strutil::concat3;
use crate::strutil::eq_str;
use crate::strutil::replace_dashes;
use crate::strutil::spec_replace_dashes;

verus! {

/// What a lookup of `name` in the snapshot returns: the value of the first
/// entry with that name, or nothing.
pub open spec fn spec_lookup(env: Seq<(Seq<char>, Seq<char>)>, name: Seq<char>) -> Option<
    Seq<char>,
>
    decreases env.len(),
{
    if env.len() == 0 {
        None
    } else if env[0].0 == name {
        Some(env[0].1)
    } else {
        spec_lookup(env.drop_first(), name)
    }
}

proof fn lemma_lookup_skip(env: Seq<(Seq<char>, Seq<char>)>, name: Seq<char>, i: int)
    requires
        0 <= i < env.len(),
        env[i].0 != name,
    ensures
        spec_lookup(env.skip(i), name) == spec_lookup(env.skip(i + 1), name),
{
    assert(env.skip(i)[0] == env[i]);
    assert(env.skip(i).drop_first() =~= env.skip(i + 1));
}

/// Looks `name` up in the snapshot; the result is exactly what
/// `spec_lookup` says of the snapshot's view.
pub fn lookup(env: &Vec<(String, String)>, name: &str) -> (r: Option<String>)
    ensures
        r.deep_view() == spec_lookup(env.deep_view(), name@),
{
    let n: usize = env.len();
    proof {
        assert(env.deep_view().skip(0) =~= env.deep_view());
    }
    let mut i: usize = 0;
    while i < n
        invariant
            i <= n,
            n == env@.len(),
            spec_lookup(env.deep_view(), name@) == spec_lookup(
                env.deep_view().skip(i as int),
                name@,
            ),
        decreases n - i,
    {
        proof {
            assert(env.deep_view()[i as int] == (env@[i as int].0@, env@[i as int].1@));
        }
        if eq_str(env[i].0.as_str(), name) {
            let v = env[i].1.clone();
            proof {
                assert(env.deep_view().skip(i as int)[0] == env.deep_view()[i as int]);
            }
            return Some(v);
        }
        proof {
            lemma_lookup_skip(env.deep_view(), name@, i as int);
        }
        i = i + 1;
    }
    proof {
        assert(env.deep_view().skip(n as int) =~= Seq::<(Seq<char>, Seq<char>)>::empty());
    }
    None
}

/// The highest-precedence key: the variable name suffixed with the target
/// triple.
pub open spec fn spec_key_target(name: Seq<char>, target: Seq<char>) -> Seq<char> {
    name + "_"@ + target
}

/// The second key: the variable name suffixed with the target triple whose
/// dashes are mapped to underscores.
pub open spec fn spec_key_target_underscored(name: Seq<char>, target: Seq<char>) -> Seq<char> {
    name + "_"@ + spec_replace_dashes(target)
}

/// The third key: `HOST_<name>` for a native build, `TARGET_<name>` for a
/// cross build. The prefix follows from whether host and target agree, not
/// from which argument stands where.
pub open spec fn spec_key_kind(name: Seq<char>, host_eq_target: bool) -> Seq<char> {
    if host_eq_target {
        "HOST"@ + "_"@ + name
    } else {
        "TARGET"@ + "_"@ + name
    }
}

/// The value the four-tier precedence scheme resolves `name` to: the first
/// of the four keys that the snapshot holds, highest precedence first.
pub open spec fn spec_resolve(
    env: Seq<(Seq<char>, Seq<char>)>,
    name: Seq<char>,
    target: Seq<char>,
    host_eq_target: bool,
) -> Option<Seq<char>> {
    if spec_lookup(env, spec_key_target(name, target)) is Some {
        spec_lookup(env, spec_key_target(name, target))
    } else if spec_lookup(env, spec_key_target_underscored(name, target)) is Some {
        spec_lookup(env, spec_key_target_underscored(name, target))
    } else if spec_lookup(env, spec_key_kind(name, host_eq_target)) is Some {
        spec_lookup(env, spec_key_kind(name, host_eq_target))
    } else {
        spec_lookup(env, name)
    }
}

/// The keys the resolver consults for `name`, in order: it stops at the
/// first key that is present, and the bare name closes the list when no
/// tier answers.
pub open spec fn spec_consulted(
    env: Seq<(Seq<char>, Seq<char>)>,
    name: Seq<char>,
    target: Seq<char>,
    host_eq_target: bool,
) -> Seq<Seq<char>> {
    let k1 = spec_key_target(name, target);
    let k2 = spec_key_target_underscored(name, target);
    let k3 = spec_key_kind(name, host_eq_target);
    if spec_lookup(env, k1) is Some {
        seq![k1]
    } else if spec_lookup(env, k2) is Some {
        seq![k1, k2]
    } else if spec_lookup(env, k3) is Some {
        seq![k1, k2, k3]
    } else {
        seq![k1, k2, k3, name]
    }
}

/// The four-tier precedence: `<NAME>_<target>`, then the same with dashes
/// mapped to underscores, then `HOST_<NAME>` or `TARGET_<NAME>`, then the
/// bare `<NAME>`. Whichever tier answers first wins. The keys consulted are
/// appended to `consulted`, found or not.
pub fn resolve_var(
    env: &Vec<(String, String)>,
    name: &str,
    target: &str,
    host_eq_target: bool,
    consulted: &mut Vec<String>,
) -> (r: Option<String>)
    ensures
        r.deep_view() == spec_resolve(env.deep_view(), name@, target@, host_eq_target),
        final(consulted).deep_view() == old(consulted).deep_view() + spec_consulted(
            env.deep_view(),
            name@,
            target@,
            host_eq_target,
        ),
{
    let k1 = concat3(name, "_", target);
    consulted.push(k1.clone());
    let r1 = lookup(env, k1.as_str());
    if r1.is_some() {
        proof {
            assert(consulted.deep_view() =~= old(consulted).deep_view() + spec_consulted(
                env.deep_view(),
                name@,
                target@,
                host_eq_target,
            ));
        }
        return r1;
    }
    let underscored = replace_dashes(target);
    let k2 = concat3(name, "_", underscored.as_str());
    consulted.push(k2.clone());
    let r2 = lookup(env, k2.as_str());
    if r2.is_some() {
        proof {
            assert(consulted.deep_view() =~= old(consulted).deep_view() + spec_consulted(
                env.deep_view(),
                name@,
                target@,
                host_eq_target,
            ));
        }
        return r2;
    }
    let kind: &str = if host_eq_target {
        "HOST"
    } else {
        "TARGET"
    };
    let k3 = concat3(kind, "_", name);
    consulted.push(k3.clone());
    let r3 = lookup(env, k3.as_str());
    if r3.is_some() {
        proof {
            assert(consulted.deep_view() =~= old(consulted).deep_view() + spec_consulted(
                env.deep_view(),
                name@,
                target@,
                host_eq_target,
            ));
        }
        return r3;
    }
    consulted.push(name.to_owned());
    let r4 = lookup(env, name);
    proof {
        assert(consulted.deep_view() =~= old(consulted).deep_view() + spec_consulted(
            env.deep_view(),
            name@,
            target@,
            host_eq_target,
        ));
    }
    r4
}

/// The variable-precedence law. An override present at the highest tier
/// wins outright; with the higher tiers absent, each lower tier is what the
/// resolver returns; with nothing present at any tier the resolver returns
/// nothing, and the bare name still stands among the keys consulted.
pub proof fn lemma_variable_precedence(
    env: Seq<(Seq<char>, Seq<char>)>,
    name: Seq<char>,
    target: Seq<char>,
    host_eq_target: bool,
)
    ensures
        spec_lookup(env, spec_key_target(name, target)) is Some ==> spec_resolve(
            env,
            name,
            target,
            host_eq_target,
        ) == spec_lookup(env, spec_key_target(name, target)),
        spec_lookup(env, spec_key_target(name, target)) is None && spec_lookup(
            env,
            spec_key_target_underscored(name, target),
        ) is Some ==> spec_resolve(env, name, target, host_eq_target) == spec_lookup(
            env,
            spec_key_target_underscored(name, target),
        ),
        spec_lookup(env, spec_key_target(name, target)) is None && spec_lookup(
            env,
            spec_key_target_underscored(name, target),
        ) is None && spec_lookup(env, spec_key_kind(name, host_eq_target)) is Some ==> spec_resolve(
            env,
            name,
            target,
            host_eq_target,
        ) == spec_lookup(env, spec_key_kind(name, host_eq_target)),
        spec_lookup(env, spec_key_target(name, target)) is None && spec_lookup(
            env,
            spec_key_target_underscored(name, target),
        ) is None && spec_lookup(env, spec_key_kind(name, host_eq_target)) is None ==> spec_resolve(
            env,
            name,
            target,
            host_eq_target,
        ) == spec_lookup(env, name),
        spec_resolve(env, name, target, host_eq_target) is None ==> spec_consulted(
            env,
            name,
            target,
            host_eq_target,
        ).last() == name,
{
}

} // verus!
