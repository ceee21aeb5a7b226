use vstd::prelude::*;

use crate::error::SecureChannelError;

verus! {

/// Send-side nonce counter of one direction of a session.
pub struct SendCounter {
    next: u64,
}

impl View for SendCounter {
    type V = u64;

    /// The nonce that the next successful allocation hands out.
    closed spec fn view(&self) -> u64 {
        self.next
    }
}

impl SendCounter {
    /// A counter whose first nonce is zero.
    pub fn new() -> (r: SendCounter)
        ensures
            r@ == 0,
    {
        SendCounter { next: 0 }
    }

    /// Hands out the current nonce and advances the counter. Fails when the
    /// counter would overflow, leaving it unchanged.
    pub fn next_send_nonce(&mut self) -> (r: Result<u64, SecureChannelError>)
        ensures
            r is Ok <==> old(self)@ < u64::MAX,
            match r {
                Ok(n) => n == old(self)@ && final(self)@ == old(self)@ + 1,
                Err(e) => e == SecureChannelError::NonceExhausted && final(self)@ == old(self)@,
            },
    {
        if self.next == u64::MAX {
            Err(SecureChannelError::NonceExhausted)
        } else {
            let n = self.next;
            self.next = n + 1;
            Ok(n)
        }
    }
}

/// Abstract receive-side state: every nonce accepted so far, the highest of
/// them, and how far below the highest a late nonce may still be accepted.
pub struct ReceiveView {
    pub highest: Option<u64>,
    pub accepted: Set<u64>,
    pub window: u64,
}

/// Whether nonce `n` is accepted next: it was never accepted before, and it
/// is newer than every accepted nonce or lies within the window below the
/// highest one.
pub open spec fn acceptable(v: ReceiveView, n: u64) -> bool {
    &&& !v.accepted.contains(n)
    &&& match v.highest {
        None => true,
        Some(h) => n > h || h - n < v.window,
    }
}

/// The receive state after nonce `n` has been accepted.
pub open spec fn record_spec(v: ReceiveView, n: u64) -> ReceiveView {
    ReceiveView {
        highest: match v.highest {
            None => Some(n),
            Some(h) => if n > h { Some(n) } else { Some(h) },
        },
        accepted: v.accepted.insert(n),
        window: v.window,
    }
}

/// Receive-side replay protection of one direction of a session. With a
/// window of zero or one only strictly increasing nonces are accepted; a
/// wider window tolerates that many positions of reordering.
pub struct ReceiveWindow {
    highest: Option<u64>,
    /// The accepted nonces that still lie within the window below `highest`.
    recent: Vec<u64>,
    window: u64,
    accepted: Ghost<Set<u64>>,
}

impl View for ReceiveWindow {
    type V = ReceiveView;

    closed spec fn view(&self) -> ReceiveView {
        ReceiveView { highest: self.highest, accepted: self.accepted@, window: self.window }
    }
}

impl ReceiveWindow {
    /// The window is consistent: `recent` holds exactly the accepted nonces
    /// within the window, and the highest accepted nonce bounds all others.
    pub closed spec fn wf(&self) -> bool {
        &&& self.accepted@.finite()
        &&& match self.highest {
            None => self.accepted@ == Set::<u64>::empty() && self.recent@.len() == 0,
            Some(h) => {
                &&& self.accepted@.contains(h)
                &&& forall|m: u64| #[trigger] self.accepted@.contains(m) ==> m <= h
                &&& forall|i: int|
                    0 <= i < self.recent@.len() ==> self.accepted@.contains(
                        #[trigger] self.recent@[i],
                    ) && h - self.recent@[i] < self.window
                &&& forall|m: u64|
                    #[trigger] self.accepted@.contains(m) && h - m < self.window
                        ==> self.recent@.contains(m)
            },
        }
    }

    /// A window that has accepted nothing yet.
    pub fn new(window: u64) -> (r: ReceiveWindow)
        ensures
            r.wf(),
            r@ == (ReceiveView { highest: None, accepted: Set::empty(), window }),
    {
        ReceiveWindow { highest: None, recent: Vec::new(), window, accepted: Ghost(Set::empty()) }
    }

    /// Whether `n` would be accepted now; nothing changes.
    pub fn validate_receive_nonce(&self, n: u64) -> (r: bool)
        requires
            self.wf(),
        ensures
            r == acceptable(self@, n),
    {
        match self.highest {
            None => {
                assert(!self.accepted@.contains(n));
                true
            },
            Some(h) => {
                if n > h {
                    proof {
                        if self.accepted@.contains(n) {
                            assert(n <= h);
                        }
                    }
                    true
                } else if h - n >= self.window {
                    false
                } else {
                    let mut i: usize = 0;
                    while i < self.recent.len()
                        invariant
                            0 <= i <= self.recent@.len(),
                            forall|j: int| 0 <= j < i ==> self.recent@[j] != n,
                            self.wf(),
                            self.highest == Some(h),
                        decreases self.recent@.len() - i,
                    {
                        if self.recent[i] == n {
                            assert(self.accepted@.contains(self.recent@[i as int]));
                            return false;
                        }
                        i = i + 1;
                    }
                    proof {
                        if self.accepted@.contains(n) {
                            assert(self.recent@.contains(n));
                            let k = choose|k: int| 0 <= k < self.recent@.len() && self.recent@[k] == n;
                            assert(self.recent@[k] != n);
                        }
                    }
                    true
                }
            },
        }
    }

    /// Records `n` as accepted.
    pub fn record(&mut self, n: u64)
        requires
            old(self).wf(),
            acceptable(old(self)@, n),
        ensures
            final(self).wf(),
            final(self)@ == record_spec(old(self)@, n),
    {
        let ghost old_accepted = self.accepted@;
        let newer = match self.highest {
            None => true,
            Some(h) => n > h,
        };
        if !newer {
            let h = self.highest.unwrap();
            {
                self.recent.push(n);
                self.accepted = Ghost(old_accepted.insert(n));
                proof {
                    assert forall|m: u64|
                        #[trigger] self.accepted@.contains(m) && h - m < self.window
                            implies self.recent@.contains(m) by {
                        if m != n {
                            let k = choose|k: int| 0 <= k < old(self).recent@.len() && old(self).recent@[k] == m;
                            assert(self.recent@[k] == m);
                        } else {
                            assert(self.recent@[self.recent@.len() - 1] == n);
                        }
                    }
                }
            }
        } else {
            {
                proof {
                    assert forall|m: u64| #[trigger] old_accepted.contains(m) implies m < n by {
                        match self.highest {
                            Some(h) => assert(m <= h),
                            None => {},
                        }
                    }
                }
                let mut kept: Vec<u64> = Vec::new();
                let mut i: usize = 0;
                while i < self.recent.len()
                    invariant
                        0 <= i <= self.recent@.len(),
                        forall|j: int|
                            0 <= j < kept@.len() ==> old_accepted.contains(#[trigger] kept@[j])
                                && n - kept@[j] < self.window,
                        forall|j: int|
                            0 <= j < i && n - self.recent@[j] < self.window ==> kept@.contains(
                                #[trigger] self.recent@[j],
                            ),
                        forall|j: int| 0 <= j < self.recent@.len() ==> old_accepted.contains(#[trigger] self.recent@[j]),
                        forall|m: u64| #[trigger] old_accepted.contains(m) ==> m < n,
                        self.recent@ == old(self).recent@,
                        self.window == old(self).window,
                    decreases self.recent@.len() - i,
                {
                    let m = self.recent[i];
                    let ghost prev = kept@;
                    if n - m < self.window {
                        kept.push(m);
                        proof {
                            assert(kept@[kept@.len() - 1] == m);
                        }
                    }
                    i = i + 1;
                    proof {
                        assert forall|j: int|
                            0 <= j < i && n - self.recent@[j] < self.window implies kept@.contains(
                                #[trigger] self.recent@[j],
                            ) by {
                            if j < i - 1 {
                                assert(prev.contains(self.recent@[j]));
                                let k = choose|k: int| 0 <= k < prev.len() && prev[k] == self.recent@[j];
                                assert(kept@[k] == prev[k]);
                            }
                        }
                    }
                }
                let ghost filtered = kept@;
                if self.window > 0 {
                    kept.push(n);
                }
                self.recent = kept;
                self.highest = Some(n);
                self.accepted = Ghost(old_accepted.insert(n));
                proof {
                    assert forall|m: u64|
                        #[trigger] self.accepted@.contains(m) && n - m < self.window
                            implies self.recent@.contains(m) by {
                        if m != n {
                            match old(self).highest {
                                Some(h) => {
                                    assert(old(self).recent@.contains(m));
                                    let k = choose|k: int| 0 <= k < old(self).recent@.len() && old(self).recent@[k] == m;
                                    assert(n - old(self).recent@[k] < self.window);
                                    assert(filtered.contains(old(self).recent@[k]));
                                    let k2 = choose|k2: int| 0 <= k2 < filtered.len() && filtered[k2] == m;
                                    assert(self.recent@[k2] == m);
                                },
                                None => {},
                            }
                        } else {
                            assert(self.recent@[self.recent@.len() - 1] == n);
                        }
                    }
                }
            }
        }
    }
}

} // verus!
