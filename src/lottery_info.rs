use vstd::prelude::*;

use crate::errors::ErrorCode;
use crate::identity::Identity;

verus! {

/// The byte-sized code of each lifecycle state, as stored in a round record.
pub const STATUS_STARTED: u8 = 0;

pub const STATUS_COMPLETED: u8 = 1;

/// The views of a sequence of identities, in order.
pub open spec fn ids_of(s: Seq<Identity>) -> Seq<Seq<u8>> {
    s.map_values(|p: Identity| p@)
}

/// One lottery round: its fixed entry fee and capacity, the enrolled
/// identities in enrolment order, and the winner once one is drawn.
pub struct LotteryInfo {
    pub winner: Option<Identity>,
    pub entry_fee: u64,
    pub participants: Vec<Identity>,
    pub max_participants: u64,
    pub status: u8,
}

/// The lifecycle of a round: open for enrolment until a winner is chosen.
#[derive(Debug, Clone, Copy, PartialEq, Eq, Structural)]
pub enum LotteryStatus {
    Started,
    Completed,
}

impl LotteryStatus {
    pub open spec fn code(&self) -> u8 {
        match self {
            LotteryStatus::Started => STATUS_STARTED,
            LotteryStatus::Completed => STATUS_COMPLETED,
        }
    }

    pub fn to_code(&self) -> (r: u8)
        ensures
            r == self.code(),
    {
        match self {
            LotteryStatus::Started => STATUS_STARTED,
            LotteryStatus::Completed => STATUS_COMPLETED,
        }
    }

    /// Decodes a stored status byte; a byte that names no state is refused.
    pub fn from(val: u8) -> (r: Result<LotteryStatus, ErrorCode>)
        ensures
            val == STATUS_STARTED ==> r == Ok::<LotteryStatus, ErrorCode>(LotteryStatus::Started),
            val == STATUS_COMPLETED ==> r == Ok::<LotteryStatus, ErrorCode>(
                LotteryStatus::Completed,
            ),
            val > STATUS_COMPLETED ==> r == Err::<LotteryStatus, ErrorCode>(
                ErrorCode::InvalidStatus,
            ),
            r matches Ok(s) ==> s.code() == val,
    {
        if val == STATUS_STARTED {
            Ok(LotteryStatus::Started)
        } else if val == STATUS_COMPLETED {
            Ok(LotteryStatus::Completed)
        } else {
            Err(ErrorCode::InvalidStatus)
        }
    }
}

impl LotteryInfo {
    /// The enrolled identities' views, in enrolment order.
    pub open spec fn ids(&self) -> Seq<Seq<u8>> {
        ids_of(self.participants@)
    }

    pub open spec fn is_enrolled(&self, who: Seq<u8>) -> bool {
        self.ids().contains(who)
    }

    pub open spec fn is_open(&self) -> bool {
        self.status == STATUS_STARTED
    }

    pub open spec fn is_completed(&self) -> bool {
        self.status == STATUS_COMPLETED
    }

    /// The round's invariant: a known status, no winner while open and a
    /// winner once completed, no more identities than the capacity and none
    /// twice.
    pub open spec fn wf(&self) -> bool {
        &&& self.status <= STATUS_COMPLETED
        &&& self.is_completed() ==> self.winner.is_some()
        &&& self.is_open() ==> self.winner.is_none()
        &&& self.participants@.len() <= self.max_participants
        &&& self.ids().no_duplicates()
    }

    /// Everything but the participant list is the same in both records.
    pub open spec fn same_settings(&self, other: &LotteryInfo) -> bool {
        &&& self.winner == other.winner
        &&& self.entry_fee == other.entry_fee
        &&& self.max_participants == other.max_participants
        &&& self.status == other.status
    }

    /// `after` is `self` with the first occurrence of `who` removed from the
    /// participant list, all else the same.
    pub open spec fn removed(&self, after: &LotteryInfo, who: Seq<u8>) -> bool {
        &&& after.same_settings(self)
        &&& exists|i: int|
            #![trigger self.participants@[i]]
            {
                &&& 0 <= i < self.participants@.len()
                &&& self.participants@[i]@ == who
                &&& forall|j: int| 0 <= j < i ==> self.participants@[j]@ != who
                &&& after.participants@ == self.participants@.remove(i)
            }
    }

    /// A fresh open round with no participants and no winner.
    pub fn new(entry_fee: u64, max_participants: u64) -> (r: LotteryInfo)
        ensures
            r.wf(),
            r.is_open(),
            r.winner.is_none(),
            r.participants@.len() == 0,
            r.entry_fee == entry_fee,
            r.max_participants == max_participants,
    {
        let r = LotteryInfo {
            winner: None,
            entry_fee,
            participants: Vec::new(),
            max_participants,
            status: STATUS_STARTED,
        };
        assert(r.ids() =~= Seq::<Seq<u8>>::empty());
        r
    }

    /// Resets the record to a fresh open round with the given fee and capacity.
    pub fn init(&mut self, entry_fee: u64, max_participants: u64) -> (r: Result<(), ErrorCode>)
        ensures
            r is Ok,
            final(self).wf(),
            final(self).is_open(),
            final(self).winner.is_none(),
            final(self).participants@.len() == 0,
            final(self).entry_fee == entry_fee,
            final(self).max_participants == max_participants,
    {
        *self = LotteryInfo::new(entry_fee, max_participants);
        Ok(())
    }

    /// The position of `who` in the participant list, if enrolled.
    pub fn position(&self, who: &Identity) -> (r: Option<usize>)
        ensures
            r is None <==> !self.is_enrolled(who@),
            r matches Some(i) ==> {
                &&& i < self.participants@.len()
                &&& self.participants@[i as int]@ == who@
                &&& forall|j: int| 0 <= j < i ==> self.participants@[j]@ != who@
            },
    {
        let mut i: usize = 0;
        while i < self.participants.len()
            invariant
                0 <= i <= self.participants@.len(),
                forall|j: int| 0 <= j < i ==> self.participants@[j]@ != who@,
            decreases self.participants@.len() - i,
        {
            if self.participants[i].same_as(who) {
                assert(self.ids()[i as int] == who@);
                return Some(i);
            }
            i = i + 1;
        }
        proof {
            if self.is_enrolled(who@) {
                let k = choose|k: int| 0 <= k < self.ids().len() && self.ids()[k] == who@;
                assert(self.participants@[k]@ == who@);
            }
        }
        None
    }

    /// Enrolls `new_participant` at the end of the list. Refused with
    /// `ParticipantAlreadyAdded` if already enrolled, else with `ListFull` if
    /// the round is at capacity; a refusal changes nothing.
    pub fn add_participant(&mut self, new_participant: Identity) -> (r: Result<(), ErrorCode>)
        ensures
            old(self).is_enrolled(new_participant@) ==> r == Err::<(), ErrorCode>(
                ErrorCode::ParticipantAlreadyAdded,
            ),
            !old(self).is_enrolled(new_participant@) && old(self).participants@.len()
                >= old(self).max_participants ==> r == Err::<(), ErrorCode>(ErrorCode::ListFull),
            r is Err ==> *final(self) == *old(self),
            r is Ok <==> (!old(self).is_enrolled(new_participant@) && old(self).participants@.len()
                < old(self).max_participants),
            r is Ok ==> {
                &&& final(self).participants@ == old(self).participants@.push(new_participant)
                &&& final(self).same_settings(old(self))
            },
            old(self).wf() ==> final(self).wf(),
    {
        let index = self.position(&new_participant);
        if index.is_some() {
            return Err(ErrorCode::ParticipantAlreadyAdded);
        }
        if self.participants.len() as u64 >= self.max_participants {
            return Err(ErrorCode::ListFull);
        }
        let ghost before = self.participants@;
        self.participants.push(new_participant);
        proof {
            assert(ids_of(self.participants@) =~= ids_of(before).push(new_participant@));
        }
        Ok(())
    }

    /// Removes `current_participant`, keeping the others in order. Refused
    /// with `ParticipantNotFound` if not enrolled; a refusal changes nothing.
    pub fn remove_participant(&mut self, current_participant: Identity) -> (r: Result<
        (),
        ErrorCode,
    >)
        ensures
            !old(self).is_enrolled(current_participant@) ==> r == Err::<(), ErrorCode>(
                ErrorCode::ParticipantNotFound,
            ),
            r is Err ==> *final(self) == *old(self),
            r is Ok ==> old(self).removed(&*final(self), current_participant@),
            r is Ok <==> old(self).is_enrolled(current_participant@),
            r is Ok ==> forall|x: Seq<u8>|
                old(self).is_enrolled(x) && x != current_participant@
                    ==> #[trigger] final(self).is_enrolled(x),
            old(self).wf() ==> final(self).wf(),
            old(self).wf() && r is Ok ==> !final(self).is_enrolled(current_participant@),
    {
        let index = self.position(&current_participant);
        match index {
            None => Err(ErrorCode::ParticipantNotFound),
            Some(i) => {
                let ghost before = self.participants@;
                self.participants.remove(i);
                proof {
                    assert(ids_of(self.participants@) =~= ids_of(before).remove(i as int));
                    assert(ids_of(before)[i as int] == current_participant@);
                    if old(self).wf() {
                        lemma_remove_keeps_unique(ids_of(before), i as int);
                    }
                    assert(before[i as int]@ == current_participant@);
                    assert forall|x: Seq<u8>|
                        old(self).is_enrolled(x) && x != current_participant@
                            implies #[trigger] self.is_enrolled(x) by {
                        let k = choose|k: int| 0 <= k < ids_of(before).len() && ids_of(before)[k] == x;
                        if k < i {
                            assert(self.ids()[k] == x);
                        } else {
                            assert(self.ids()[k - 1] == x);
                        }
                    }
                }
                Ok(())
            },
        }
    }
}

/// Removing one entry of a sequence without duplicates leaves one without
/// duplicates, which no longer holds that entry.
pub proof fn lemma_remove_keeps_unique(s: Seq<Seq<u8>>, i: int)
    requires
        s.no_duplicates(),
        0 <= i < s.len(),
    ensures
        s.remove(i).no_duplicates(),
        !s.remove(i).contains(s[i]),
{
    let r = s.remove(i);
    assert forall|a: int, b: int| 0 <= a < r.len() && 0 <= b < r.len() && a != b implies r[a]
        != r[b] by {
        let sa = if a < i { a } else { a + 1 };
        let sb = if b < i { b } else { b + 1 };
        assert(r[a] == s[sa]);
        assert(r[b] == s[sb]);
    }
    if r.contains(s[i]) {
        let k = choose|k: int| 0 <= k < r.len() && r[k] == s[i];
        let sk = if k < i { k } else { k + 1 };
        assert(r[k] == s[sk]);
    }
}

} // verus!
