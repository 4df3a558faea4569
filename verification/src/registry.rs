//! The device registry: the set of device identifiers that have already
//! been announced during this process lifetime. Membership only grows; the
//! set is lost on restart, so every device is re-announced after one —
//! intentional, since the discovery consumer deduplicates on the unique id.

use vstd::prelude::*;

verus! {

/// In-memory set of device identifiers seen so far.
pub struct DeviceRegistry {
    ids: Vec<String>,
}

impl View for DeviceRegistry {
    type V = Set<Seq<char>>;

    closed spec fn view(&self) -> Set<Seq<char>> {
        self.ids@.map_values(|s: String| s@).to_set()
    }
}

impl DeviceRegistry {
    /// An empty registry: no device has been announced yet.
    pub fn new() -> (r: DeviceRegistry)
        ensures
            r@ == Set::<Seq<char>>::empty(),
    {
        let r = DeviceRegistry { ids: Vec::new() };
        proof {
            assert(r@ =~= Set::<Seq<char>>::empty());
        }
        r
    }

    /// Whether `device_id` has been recorded before.
    pub fn is_known(&self, device_id: &String) -> (r: bool)
        ensures
            r == self@.contains(device_id@),
    {
        let ghost mapped = self.ids@.map_values(|s: String| s@);
        let mut i: usize = 0;
        while i < self.ids.len()
            invariant
                i <= self.ids@.len(),
                mapped == self.ids@.map_values(|s: String| s@),
                forall|k: int| 0 <= k < i ==> self.ids@[k]@ != device_id@,
            decreases self.ids@.len() - i,
        {
            if self.ids[i] == *device_id {
                proof {
                    assert(mapped[i as int] == device_id@);
                    assert(mapped.contains(device_id@));
                }
                return true;
            }
            i = i + 1;
        }
        proof {
            assert forall|k: int| 0 <= k < mapped.len() implies mapped[k] != device_id@ by {
                assert(self.ids@[k]@ != device_id@);
            }
            assert(!mapped.contains(device_id@));
        }
        false
    }

    /// Records a sighting of `device_id`. Recording an already-known
    /// identifier changes nothing.
    pub fn record(&mut self, device_id: String)
        ensures
            final(self)@ == old(self)@.insert(device_id@),
    {
        let ghost pre = self.ids@;
        if self.is_known(&device_id) {
            proof {
                assert(self@.insert(device_id@) =~= self@);
            }
        } else {
            self.ids.push(device_id);
            proof {
                let mapped_pre = pre.map_values(|s: String| s@);
                let mapped_post = self.ids@.map_values(|s: String| s@);
                assert(mapped_post =~= mapped_pre.push(device_id@));
                assert forall|x: Seq<char>|
                    mapped_post.to_set().contains(x) == mapped_pre.to_set().insert(
                        device_id@,
                    ).contains(x) by {
                    if mapped_post.contains(x) {
                        let k = choose|k: int|
                            0 <= k < mapped_post.len() && mapped_post[k] == x;
                        if k < mapped_pre.len() {
                            assert(mapped_pre[k] == x);
                            assert(mapped_pre.contains(x));
                        } else {
                            assert(x == device_id@);
                        }
                    }
                    if mapped_pre.contains(x) {
                        let k = choose|k: int| 0 <= k < mapped_pre.len() && mapped_pre[k] == x;
                        assert(mapped_post[k] == x);
                        assert(mapped_post.contains(x));
                    }
                    if x == device_id@ {
                        assert(mapped_post[mapped_post.len() - 1] == x);
                        assert(mapped_post.contains(x));
                    }
                }
                assert(self@ =~= old(self)@.insert(device_id@));
            }
        }
    }
}

} // verus!
