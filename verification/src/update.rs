use vstd::prelude::*;

verus! {

/// Information about an available update: the running version and the newer
/// released version, both without any leading tag prefix.
#[derive(Clone, Debug)]
pub struct UpdateInfo {
    pub current_version: String,
    pub latest_version: String,
}

/// A release tag with every leading 'v' removed: release tags are commonly
/// published as "v1.2.3" while the running version reads "1.2.3".
pub open spec fn spec_strip_v(s: Seq<char>) -> Seq<char>
    decreases s.len(),
{
    if s.len() > 0 && s[0] == 'v' {
        spec_strip_v(s.subrange(1, s.len() as int))
    } else {
        s
    }
}

/// Removes the leading 'v' prefix (all leading 'v' characters) of a release
/// tag.
pub fn strip_v_prefix(tag: &str) -> (r: String)
    ensures
        r@ == spec_strip_v(tag@),
{
    let len = tag.unicode_len();
    let mut i: usize = 0;
    proof {
        assert(tag@.subrange(0, len as int) =~= tag@);
    }
    while i < len && tag.get_char(i) == 'v'
        invariant
            i <= len,
            len == tag@.len(),
            spec_strip_v(tag@) == spec_strip_v(tag@.subrange(i as int, len as int)),
        decreases len - i,
    {
        proof {
            let sub = tag@.subrange(i as int, len as int);
            assert(sub[0] == tag@[i as int]);
            assert(sub.subrange(1, sub.len() as int) =~= tag@.subrange(
                i as int + 1,
                len as int,
            ));
        }
        i += 1;
    }
    let rest = tag.substring_char(i, len);
    proof {
        let sub = tag@.subrange(i as int, len as int);
        if i < len {
            assert(sub[0] == tag@[i as int]);
        }
        assert(spec_strip_v(sub) == sub);
        assert(rest@ == sub);
    }
    rest.to_owned()
}

/// Compares the running version with the latest release tag. Returns the
/// update information exactly when the stripped tag differs from the running
/// version, and nothing when the build is already up to date.
pub fn evaluate_update(current_version: &str, latest_tag: &str) -> (r: Option<UpdateInfo>)
    ensures
        (match r {
            Option::Some(info) => {
                &&& spec_strip_v(latest_tag@) != current_version@
                &&& info.current_version@ == current_version@
                &&& info.latest_version@ == spec_strip_v(latest_tag@)
            },
            Option::None => spec_strip_v(latest_tag@) == current_version@,
        }),
{
    let latest = strip_v_prefix(latest_tag);
    let current = current_version.to_owned();
    if latest == current {
        Option::None
    } else {
        Option::Some(UpdateInfo { current_version: current, latest_version: latest })
    }
}

/// What the interactive update check does after the latest release tag is
/// known.
#[derive(Clone, Copy, Debug, PartialEq, Eq, Structural)]
pub enum UpdateAction {
    /// The running build already is the latest release: report that and stop.
    AlreadyLatest,
    /// A newer release exists and installing was requested: download and
    /// install it.
    Install,
    /// A newer release exists but installing was not requested: only tell
    /// the operator how to install it.
    Notify,
}

/// The decision rule of the interactive update check.
pub open spec fn spec_update_plan(current: Seq<char>, latest_tag: Seq<char>, do_update: bool) -> UpdateAction {
    if spec_strip_v(latest_tag) == current {
        UpdateAction::AlreadyLatest
    } else if do_update {
        UpdateAction::Install
    } else {
        UpdateAction::Notify
    }
}

/// Decides what the interactive update check does, from the running
/// version, the fetched release tag and whether installing was requested.
pub fn update_plan(current_version: &str, latest_tag: &str, do_update: bool) -> (r: UpdateAction)
    ensures
        r == spec_update_plan(current_version@, latest_tag@, do_update),
{
    let latest = strip_v_prefix(latest_tag);
    let current = current_version.to_owned();
    if latest == current {
        UpdateAction::AlreadyLatest
    } else if do_update {
        UpdateAction::Install
    } else {
        UpdateAction::Notify
    }
}

} // verus!
