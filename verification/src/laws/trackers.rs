//! Which generic trackers a list holds after the runtime was asked for them.
use vstd::prelude::*;
use crate::device::{DeviceView, TrackedDeviceType};
use crate::list::{
    is_listed, is_no_tracker, new_trackers, qualifies, tracker_report, with_reply,
    without_trackers, NewTrackers, TrackedDeviceList,
};
use crate::profiles::InteractionProfile;
use crate::xdev::{contains_text, is_tracker_name, lowercase, stands_at, Xdev};

verus! {

/// Filtering picks the elements that pass, each once and in their order: those at the
/// positions in the result.
proof fn lemma_filter_picks<A>(s: Seq<A>, pred: spec_fn(A) -> bool) -> (picks: Seq<int>)
    ensures
        s.filter(pred).len() == picks.len() <= s.len(),
        forall|a: int, b: int| 0 <= a < b < picks.len() ==> picks[a] < picks[b],
        forall|a: int|
            0 <= a < picks.len() ==> 0 <= (#[trigger] picks[a]) < s.len() && pred(s[picks[a]])
                && s.filter(pred)[a] == s[picks[a]],
        forall|k: int|
            0 <= k < s.len() ==> (#[trigger] picks.contains(k) <==> pred(s[k])),
    decreases s.len(),
{
    reveal(Seq::filter);
    if s.len() == 0 {
        Seq::empty()
    } else {
        let n = s.len() - 1;
        let before = lemma_filter_picks(s.drop_last(), pred);
        let picks = if pred(s.last()) {
            before.push(n)
        } else {
            before
        };
        assert forall|k: int| 0 <= k < s.len() implies (#[trigger] picks.contains(k) <==> pred(
            s[k],
        )) by {
            if k < n {
                assert(before.contains(k) <==> pred(s.drop_last()[k]));
                if before.contains(k) {
                    assert(picks[before.index_of(k)] == k);
                }
                if picks.contains(k) {
                    assert(before[picks.index_of(k)] == k);
                }
            } else if pred(s.last()) {
                assert(picks[before.len() as int] == k);
            } else if picks.contains(k) {
                assert(before[picks.index_of(k)] == k);
            }
        }
        picks
    }
}

/// A text holds the word exactly if its letters stand in it in a row.
proof fn lemma_tracker_letters(name: Seq<char>)
    ensures
        contains_text(name, "tracker"@) <==> exists|p: int|
            {
                &&& 0 <= p <= name.len() - 7
                &&& #[trigger] name[p] == 't'
                &&& name[p + 1] == 'r'
                &&& name[p + 2] == 'a'
                &&& name[p + 3] == 'c'
                &&& name[p + 4] == 'k'
                &&& name[p + 5] == 'e'
                &&& name[p + 6] == 'r'
            },
{
    reveal_strlit("tracker");
    let word = "tracker"@;
    assert forall|p: int| #[trigger] stands_at(name, word, p) implies {
        &&& 0 <= p <= name.len() - 7
        &&& name[p] == 't'
        &&& name[p + 1] == 'r'
        &&& name[p + 2] == 'a'
        &&& name[p + 3] == 'c'
        &&& name[p + 4] == 'k'
        &&& name[p + 5] == 'e'
        &&& name[p + 6] == 'r'
    } by {
        let part = name.subrange(p, p + 7);
        assert(part[0] == name[p] && part[1] == name[p + 1] && part[2] == name[p + 2] && part[3]
            == name[p + 3] && part[4] == name[p + 4] && part[5] == name[p + 5] && part[6] == name[p
            + 6]);
    }
    assert forall|p: int|
        {
            &&& 0 <= p <= name.len() - 7
            &&& #[trigger] name[p] == 't'
            &&& name[p + 1] == 'r'
            &&& name[p + 2] == 'a'
            &&& name[p + 3] == 'c'
            &&& name[p + 4] == 'k'
            &&& name[p + 5] == 'e'
            &&& name[p + 6] == 'r'
        } implies stands_at(name, word, p) by {
        assert(name.subrange(p, p + 7) =~= word);
    }
}

/// A lowercase name is that of a tracker exactly if it holds the letters t, r, a, c, k, e, r
/// in a row.
pub proof fn tracker_name_spells_tracker(name: &str, r: bool)
    requires
        call_ensures(is_tracker_name, (name,), r),
    ensures
        r <==> exists|p: int|
            {
                &&& 0 <= p <= name@.len() - 7
                &&& #[trigger] name@[p] == 't'
                &&& name@[p + 1] == 'r'
                &&& name@[p + 2] == 'a'
                &&& name@[p + 3] == 'c'
                &&& name@[p + 4] == 'k'
                &&& name@[p + 5] == 'e'
                &&& name@[p + 6] == 'r'
            },
{
    lemma_tracker_letters(name@);
}

/// A device is a generic tracker exactly if it has a space and its name, in lower case,
/// holds the letters t, r, a, c, k, e, r in a row.
pub proof fn generic_tracker_has_a_space_and_the_name(xdev: Xdev, r: bool)
    requires
        call_ensures(Xdev::is_generic_tracker, (&xdev,), r),
    ensures
        ({
            let name = lowercase(xdev.properties.spec_name());
            r <==> xdev.space is Some && exists|p: int|
                {
                    &&& 0 <= p <= name.len() - 7
                    &&& #[trigger] name[p] == 't'
                    &&& name[p + 1] == 'r'
                    &&& name[p + 2] == 'a'
                    &&& name[p + 3] == 'c'
                    &&& name[p + 4] == 'k'
                    &&& name[p + 5] == 'e'
                    &&& name[p + 6] == 'r'
                }
        }),
{
    lemma_tracker_letters(lowercase(xdev.properties.spec_name()));
}

/// Removing the generic trackers keeps all other devices, each as it was and in their order,
/// and nothing else: those at the positions in the result.
pub proof fn removing_trackers_keeps_the_others(list: &mut TrackedDeviceList) -> (kept: Seq<int>)
    requires
        call_ensures(TrackedDeviceList::remove_generic_trackers, (list,), ()),
    ensures
        final(list)@.len() == kept.len(),
        forall|a: int, b: int| 0 <= a < b < kept.len() ==> kept[a] < kept[b],
        forall|a: int|
            0 <= a < kept.len() ==> 0 <= (#[trigger] kept[a]) < old(list)@.len() && final(list)@[a]
                == old(list)@[kept[a]],
        forall|k: int|
            0 <= k < old(list)@.len() ==> (#[trigger] kept.contains(k) <==> old(
                list)@[k].device_type != TrackedDeviceType::GenericTracker),
{
    lemma_filter_picks(old(list)@, is_no_tracker())
}

/// As many generic trackers fit in as are missing to the 64 devices that OpenVR can track.
pub proof fn trackers_fill_up_to_64_devices(list: TrackedDeviceList, r: usize)
    requires
        1 <= list@.len() <= 64,
        call_ensures(TrackedDeviceList::max_generic_trackers, (&list,), r),
    ensures
        r + list@.len() == 64,
{
}

/// `picks` holds, in order, the positions among `found` of the devices that qualify.
spec fn are_picks(devices: Seq<DeviceView>, found: Vec<Xdev>, picks: Seq<int>) -> bool {
    &&& picks.len() == new_trackers(devices, found@).len() <= usize::MAX
    &&& forall|a: int, b: int| 0 <= a < b < picks.len() ==> picks[a] < picks[b]
    &&& forall|a: int|
        0 <= a < picks.len() ==> 0 <= (#[trigger] picks[a]) < found@.len() && new_trackers(
            devices,
            found@,
        )[a] == found@[picks[a]]
    &&& forall|k: int|
        #![trigger picks.contains(k)]
        0 <= k < found@.len() ==> (picks.contains(k) <==> {
            let name = lowercase(found@[k].properties.spec_name());
            &&& found@[k].space is Some
            &&& exists|p: int|
                {
                    &&& 0 <= p <= name.len() - 7
                    &&& #[trigger] name[p] == 't'
                    &&& name[p + 1] == 'r'
                    &&& name[p + 2] == 'a'
                    &&& name[p + 3] == 'c'
                    &&& name[p + 4] == 'k'
                    &&& name[p + 5] == 'e'
                    &&& name[p + 6] == 'r'
                }
            &&& forall|i: int|
                0 <= i < devices.len() && (#[trigger] devices[i]).xdev is Some
                    ==> devices[i].xdev->0.id != found@[k].id
        })
}

proof fn lemma_picks_exist(devices: Seq<DeviceView>, found: Vec<Xdev>) -> (picks: Seq<int>)
    ensures
        are_picks(devices, found, picks),
{
    let picks = lemma_filter_picks(found@, qualifies(devices));
    assert(found@.len() == found.len());
    assert forall|name: Seq<char>| #[trigger] contains_text(name, "tracker"@) <==> exists|p: int|
        {
            &&& 0 <= p <= name.len() - 7
            &&& #[trigger] name[p] == 't'
            &&& name[p + 1] == 'r'
            &&& name[p + 2] == 'a'
            &&& name[p + 3] == 'c'
            &&& name[p + 4] == 'k'
            &&& name[p + 5] == 'e'
            &&& name[p + 6] == 'r'
        } by {
        lemma_tracker_letters(name);
    }
    picks
}

/// Of the devices that the runtime found, those qualify that have a space, whose name, in
/// lower case, holds the letters t, r, a, c, k, e, r in a row, and whose id is not that of
/// a device in the list. As many of them as fit into 64 devices are added, in their order,
/// each as a connected generic tracker with the given profile, behind the devices that were
/// there. The report gives the number of those that qualified, and of those that did not fit.
///
/// The result holds the positions, among the devices that were found, of those that qualify.
pub proof fn qualifying_devices_are_added_in_order(
    list: &mut TrackedDeviceList,
    found: Vec<Xdev>,
    profile: &'static InteractionProfile,
    r: Result<NewTrackers, openxr::sys::Result>,
) -> (picks: Seq<int>)
    requires
        1 <= old(list)@.len() <= 64,
        call_ensures(TrackedDeviceList::add_generic_trackers, (list, Ok(found), profile), r),
    ensures
        forall|a: int, b: int| 0 <= a < b < picks.len() ==> picks[a] < picks[b],
        forall|a: int| 0 <= a < picks.len() ==> 0 <= (#[trigger] picks[a]) < found@.len(),
        forall|k: int|
            #![trigger picks.contains(k)]
            0 <= k < found@.len() ==> (picks.contains(k) <==> {
                let name = lowercase(found@[k].properties.spec_name());
                &&& found@[k].space is Some
                &&& exists|p: int|
                    {
                        &&& 0 <= p <= name.len() - 7
                        &&& #[trigger] name[p] == 't'
                        &&& name[p + 1] == 'r'
                        &&& name[p + 2] == 'a'
                        &&& name[p + 3] == 'c'
                        &&& name[p + 4] == 'k'
                        &&& name[p + 5] == 'e'
                        &&& name[p + 6] == 'r'
                    }
                &&& forall|i: int|
                    0 <= i < old(list)@.len() && (#[trigger] old(list)@[i]).xdev is Some ==> old(
                        list)@[i].xdev->0.id != found@[k].id
            }),
        ({
            let before: int = old(list)@.len() as int;
            let added: int = final(list)@.len() - before;
            &&& added == if before + picks.len() <= 64 {
                picks.len() as int
            } else {
                64 - before
            }
            &&& forall|i: int| 0 <= i < before ==> (#[trigger] final(list)@[i]) == old(list)@[i]
            &&& forall|i: int|
                before <= i < before + added ==> {
                    let tracker = #[trigger] final(list)@[i];
                    &&& tracker.device_type == TrackedDeviceType::GenericTracker
                    &&& tracker.interaction_profile == Some(profile)
                    &&& tracker.profile_path.raw == 0
                    &&& tracker.connected
                    &&& !tracker.previous_connected
                    &&& tracker.pose_cache is None
                    &&& tracker.xdev == Some(found@[picks[i - before]])
                }
            &&& r matches Ok(report) && report.qualified == picks.len() && report.left_out
                == picks.len() - added
        }),
{
    lemma_picks_exist(old(list)@, found)
}

/// If the runtime failed to find devices, its error is the result and the list stays as it
/// was.
pub proof fn failure_adds_no_tracker(
    list: &mut TrackedDeviceList,
    e: openxr::sys::Result,
    profile: &'static InteractionProfile,
    r: Result<NewTrackers, openxr::sys::Result>,
)
    requires
        call_ensures(TrackedDeviceList::add_generic_trackers, (list, Err(e), profile), r),
    ensures
        r matches Err(error) && error == e,
        final(list)@ == old(list)@,
{
}

/// Without a way to ask the runtime, nothing qualifies and the list stays as it was.
pub proof fn without_runtime_no_tracker_changes<
    F: FnOnce(usize) -> Result<Vec<Xdev>, openxr::sys::Result>,
>(
    list: &mut TrackedDeviceList,
    profile: &'static InteractionProfile,
    r: Result<NewTrackers, openxr::sys::Result>,
)
    requires
        call_ensures(
            TrackedDeviceList::create_generic_trackers::<F>,
            (list, None::<F>, profile),
            r,
        ),
    ensures
        r matches Ok(report) && report.qualified == 0 && report.left_out == 0,
        final(list)@ == old(list)@,
{
}

/// Creating generic trackers keeps all devices that are none, each as it was and in their
/// order, and asks the runtime for as many devices as are then missing to 64. If the runtime
/// fails, its error is the result and no tracker is left. Of the devices that it finds, those
/// qualify that have a space, whose name, in lower case, holds the letters t, r, a, c, k, e, r
/// in a row, and whose id is not that of a kept device. As many of them as fit are added
/// behind the kept devices, in their order, each as a connected generic tracker with the given
/// profile. The report gives the number of those that qualified, and of those that did not
/// fit.
///
/// The result holds the positions of the devices that are kept.
pub proof fn created_trackers_are_the_qualifying_devices<
    F: FnOnce(usize) -> Result<Vec<Xdev>, openxr::sys::Result>,
>(
    list: &mut TrackedDeviceList,
    enumerate_xdevs: F,
    profile: &'static InteractionProfile,
    r: Result<NewTrackers, openxr::sys::Result>,
) -> (kept: Seq<int>)
    requires
        1 <= old(list)@.len() <= 64,
        old(list)@[0].device_type == TrackedDeviceType::Hmd,
        call_ensures(
            TrackedDeviceList::create_generic_trackers::<F>,
            (list, Some(enumerate_xdevs), profile),
            r,
        ),
    ensures
        1 <= kept.len() <= 64,
        forall|a: int, b: int| 0 <= a < b < kept.len() ==> kept[a] < kept[b],
        forall|a: int|
            0 <= a < kept.len() ==> 0 <= (#[trigger] kept[a]) < old(list)@.len() && final(list)@[a]
                == old(list)@[kept[a]],
        forall|k: int|
            0 <= k < old(list)@.len() ==> (#[trigger] kept.contains(k) <==> old(
                list)@[k].device_type != TrackedDeviceType::GenericTracker),
        r matches Err(e) ==> {
            &&& exists|reply: Result<Vec<Xdev>, openxr::sys::Result>|
                {
                    &&& #[trigger] call_ensures(
                        enumerate_xdevs,
                        ((64 - kept.len()) as usize,),
                        reply,
                    )
                    &&& reply matches Err(error) && error == e
                }
            &&& final(list)@.len() == kept.len()
        },
        // The positions among the devices that were found are those of the ones that qualify
        r matches Ok(report) ==> exists|
            reply: Result<Vec<Xdev>, openxr::sys::Result>,
            picks: Seq<int>,
        |
            #![trigger call_ensures(enumerate_xdevs, ((64 - kept.len()) as usize,), reply), picks.len()]
            {
                let found = reply->Ok_0@;
                let added: int = final(list)@.len() - kept.len();
                &&& call_ensures(enumerate_xdevs, ((64 - kept.len()) as usize,), reply)
                &&& reply is Ok
                &&& forall|a: int, b: int| 0 <= a < b < picks.len() ==> picks[a] < picks[b]
                &&& forall|a: int| 0 <= a < picks.len() ==> 0 <= (#[trigger] picks[a]) < found.len()
                &&& forall|k: int|
                    #![trigger picks.contains(k)]
                    0 <= k < found.len() ==> (picks.contains(k) <==> {
                        let name = lowercase(found[k].properties.spec_name());
                        &&& found[k].space is Some
                        &&& exists|p: int|
                            {
                                &&& 0 <= p <= name.len() - 7
                                &&& #[trigger] name[p] == 't'
                                &&& name[p + 1] == 'r'
                                &&& name[p + 2] == 'a'
                                &&& name[p + 3] == 'c'
                                &&& name[p + 4] == 'k'
                                &&& name[p + 5] == 'e'
                                &&& name[p + 6] == 'r'
                            }
                        &&& forall|i: int|
                            0 <= i < kept.len() && (#[trigger] final(list)@[i]).xdev is Some
                                ==> final(list)@[i].xdev->0.id != found[k].id
                    })
                &&& added == if kept.len() + picks.len() <= 64 {
                    picks.len() as int
                } else {
                    64 - kept.len()
                }
                &&& forall|i: int|
                    kept.len() <= i < kept.len() + added ==> {
                        let tracker = #[trigger] final(list)@[i];
                        &&& tracker.device_type == TrackedDeviceType::GenericTracker
                        &&& tracker.interaction_profile == Some(profile)
                        &&& tracker.profile_path.raw == 0
                        &&& tracker.connected
                        &&& !tracker.previous_connected
                        &&& tracker.pose_cache is None
                        &&& tracker.xdev == Some(found[picks[i - kept.len()]])
                    }
                &&& report.qualified == picks.len()
                &&& report.left_out == picks.len() - added
            },
{
    let others = without_trackers(old(list)@);
    let kept = lemma_filter_picks(old(list)@, is_no_tracker());
    assert forall|found: Vec<Xdev>|
        #![trigger found@]
        exists|picks: Seq<int>| are_picks(others, found, picks) by {
        lemma_picks_exist(others, found);
    }
    let reply = choose|reply: Result<Vec<Xdev>, openxr::sys::Result>|
        {
            &&& #[trigger] call_ensures(enumerate_xdevs, ((64 - others.len()) as usize,), reply)
            &&& final(list)@ == with_reply(others, profile, reply)
            &&& r == tracker_report(others, reply)
        };
    if reply is Ok {
        let after = final(list)@;
        assert(forall|i: int|
            #![trigger after[i]]
            #![trigger others[i]]
            0 <= i < kept.len() ==> after[i] == others[i]);
    }
    kept
}

} // verus!
