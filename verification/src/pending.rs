//! Requests that wait for their response, each under a number that no other
//! request in flight has.

use vstd::prelude::*;

verus! {

/// A request that was sent and waits for its response.
pub struct PendingRequest<S> {
    /// The number that the response will carry.
    pub sequence_number: u32,
    /// When the wait for the response ends, on the caller's clock.
    pub deadline: u64,
    /// Who is told the outcome.
    pub sink: S,
}

/// The requests in flight, and the counter that numbers them. Numbers are
/// handed out in increasing order, starting over from 1 after the largest;
/// zero is never handed out, nor a number that is still in flight.
pub struct PendingTable<S> {
    response_callbacks_counter: u32,
    response_callbacks_queue: Vec<PendingRequest<S>>,
}

/// The counter after a sequence number was handed out: the number that
/// follows it, starting over from 1 after the largest.
pub open spec fn counter_after(number: u32) -> u32 {
    if number == u32::MAX {
        1u32
    } else {
        (number + 1) as u32
    }
}

/// The sequence numbers of a queue of requests, in its order.
pub open spec fn numbers_of<S>(queue: Seq<PendingRequest<S>>) -> Seq<u32> {
    Seq::new(queue.len(), |i: int| queue[i].sequence_number)
}

impl<S> PendingTable<S> {
    /// The sequence numbers in flight, in increasing order.
    pub closed spec fn numbers(&self) -> Seq<u32> {
        numbers_of(self.response_callbacks_queue@)
    }

    /// The sink that waits at a place of the queue.
    pub closed spec fn sink_at(&self, place: int) -> S {
        self.response_callbacks_queue@[place].sink
    }

    /// The deadline of the request at a place of the queue.
    pub closed spec fn deadline_at(&self, place: int) -> u64 {
        self.response_callbacks_queue@[place].deadline
    }

    /// The number that the next request gets, unless it is in flight or zero.
    pub closed spec fn counter(&self) -> u32 {
        self.response_callbacks_counter
    }

    /// The invariant: sequence numbers in flight are strictly increasing in
    /// the queue, so that none occurs twice, and none is zero.
    #[verifier::type_invariant]
    pub closed spec fn wf(&self) -> bool {
        &&& forall|i: int, j: int|
            0 <= i < j < self.numbers().len() ==> self.numbers()[i] < self.numbers()[j]
        &&& forall|i: int| 0 <= i < self.numbers().len() ==> self.numbers()[i] != 0
    }

    /// Whether a request with this sequence number waits for its response.
    pub open spec fn in_flight(&self, sequence_number: u32) -> bool {
        self.numbers().contains(sequence_number)
    }

    /// Whether a number is the one that the next request gets: the first
    /// number from the counter on that is neither zero nor in flight, where
    /// the numbers start over from 1 after the largest.
    pub open spec fn is_next(&self, number: u32) -> bool {
        &&& number != 0
        &&& !self.in_flight(number)
        &&& if number >= self.counter() {
            forall|other: u32|
                self.counter() <= other < number && other != 0 ==> self.in_flight(other)
        } else {
            &&& forall|other: u32| self.counter() <= other && other != 0 ==> self.in_flight(other)
            &&& forall|other: u32| 0 < other < number ==> self.in_flight(other)
        }
    }

    /// Who waits for the response with each sequence number in flight.
    pub open spec fn sinks(&self) -> Map<u32, S> {
        Map::new(
            |number: u32| self.in_flight(number),
            |number: u32| self.sink_at(self.numbers().index_of(number)),
        )
    }

    /// The deadline of each request in flight.
    pub open spec fn deadlines(&self) -> Map<u32, u64> {
        Map::new(
            |number: u32| self.in_flight(number),
            |number: u32| self.deadline_at(self.numbers().index_of(number)),
        )
    }

    /// A table with nothing in flight. The first request will get the
    /// sequence number 1.
    pub fn new() -> (table: Self)
        ensures
            table.counter() == 1,
            table.sinks() == Map::<u32, S>::empty(),
            table.deadlines() == Map::<u32, u64>::empty(),
            table.numbers() == Seq::<u32>::empty(),
    {
        let table = PendingTable { response_callbacks_counter: 1, response_callbacks_queue: Vec::new() };
        assert(table.numbers() =~= Seq::<u32>::empty());
        assert(table.sinks() =~= Map::<u32, S>::empty());
        assert(table.deadlines() =~= Map::<u32, u64>::empty());
        table
    }

    /// The number of requests in flight.
    pub fn len(&self) -> (count: usize)
        ensures
            count == self.numbers().len(),
    {
        self.response_callbacks_queue.len()
    }

    /// Whether a request with this sequence number is in flight.
    pub fn contains(&self, sequence_number: u32) -> (held: bool)
        ensures
            held == self.in_flight(sequence_number),
    {
        let at = self.position(sequence_number);
        at.1
    }

    /// Where a sequence number stands or would stand in the queue, and
    /// whether it is in flight.
    fn position(&self, number: u32) -> (at: (usize, bool))
        ensures
            at.0 <= self.numbers().len(),
            forall|j: int| 0 <= j < at.0 ==> self.numbers()[j] < number,
            forall|j: int| at.0 < j < self.numbers().len() ==> number < self.numbers()[j],
            at.1 ==> at.0 < self.numbers().len() && self.numbers()[at.0 as int] == number,
            !at.1 ==> at.0 == self.numbers().len() || number < self.numbers()[at.0 as int],
            at.1 == self.in_flight(number),
    {
        proof {
            use_type_invariant(self);
        }
        let ghost numbers = self.numbers();
        let mut low: usize = 0;
        let mut high: usize = self.response_callbacks_queue.len();
        while low < high
            invariant
                numbers == self.numbers(),
                numbers.len() == self.response_callbacks_queue@.len(),
                forall|i: int, j: int| 0 <= i < j < numbers.len() ==> numbers[i] < numbers[j],
                low <= high <= numbers.len(),
                forall|j: int| 0 <= j < low ==> numbers[j] < number,
                forall|j: int| high <= j < numbers.len() ==> number < numbers[j],
            decreases high - low,
        {
            let middle = low + (high - low) / 2;
            let held = self.response_callbacks_queue[middle].sequence_number;
            assert(held == numbers[middle as int]);
            if held < number {
                low = middle + 1;
            } else if number < held {
                high = middle;
            } else {
                return (middle, true);
            }
        }
        (low, false)
    }

    /// Moves the queue out, so that the client is never seen out of order
    /// while the queue changes; the caller puts it back.
    fn take_queue(&mut self) -> (queue: Vec<PendingRequest<S>>)
        ensures
            queue == old(self).response_callbacks_queue,
            final(self).response_callbacks_queue@.len() == 0,
            final(self).response_callbacks_counter == old(self).response_callbacks_counter,
    {
        let mut queue: Vec<PendingRequest<S>> = Vec::new();
        assert(numbers_of(queue@) =~= Seq::<u32>::empty());
        core::mem::swap(&mut self.response_callbacks_queue, &mut queue);
        queue
    }

    /// The first sequence number from `from` on, up to the largest, that is
    /// neither zero nor in flight.
    fn free_number_from(&self, from: u32) -> (free: Option<u32>)
        ensures
            match free {
                Some(number) => number != 0 && number >= from && !self.in_flight(number)
                    && forall|other: u32|
                    from <= other < number && other != 0 ==> self.in_flight(other),
                None => forall|other: u32| from <= other && other != 0 ==> self.in_flight(other),
            },
    {
        proof {
            use_type_invariant(self);
        }
        let ghost numbers = self.numbers();
        let start: u32 = if from == 0 {
            1
        } else {
            from
        };
        let at = self.position(start);
        if !at.1 {
            return Some(start);
        }
        let mut place: usize = at.0;
        let mut candidate: u32 = start;
        let length = self.response_callbacks_queue.len();
        loop
            invariant
                numbers == self.numbers(),
                numbers.len() == self.response_callbacks_queue@.len(),
                numbers.len() == length,
                forall|i: int, j: int| 0 <= i < j < numbers.len() ==> numbers[i] < numbers[j],
                place < numbers.len(),
                numbers[place as int] == candidate,
                start <= candidate,
                start != 0,
                start == (if from == 0 { 1u32 } else { from }),
                forall|other: u32| start <= other <= candidate ==> numbers.contains(other),
            decreases numbers.len() - place,
        {
            if candidate == u32::MAX {
                return None;
            }
            candidate = candidate + 1;
            place = place + 1;
            if place == length {
                assert(!numbers.contains(candidate)) by {
                    if numbers.contains(candidate) {
                        let j = choose|j: int| 0 <= j < numbers.len() && numbers[j] == candidate;
                        assert(numbers[j] <= numbers[place - 1]);
                    }
                }
                return Some(candidate);
            }
            let held = self.response_callbacks_queue[place].sequence_number;
            assert(held == numbers[place as int]);
            assert(numbers[place - 1] < numbers[place as int]);
            if held != candidate {
                assert(!numbers.contains(candidate)) by {
                    if numbers.contains(candidate) {
                        let j = choose|j: int| 0 <= j < numbers.len() && numbers[j] == candidate;
                        if j < place {
                            assert(numbers[j] <= numbers[place - 1]);
                        } else if j > place {
                            assert(numbers[place as int] < numbers[j]);
                        }
                    }
                }
                return Some(candidate);
            }
        }
    }

    /// Picks the sequence number for a new request: the counter, or the next
    /// number after it that is neither zero nor in flight, starting over from
    /// 1 after the largest number. Fails only where every number is taken.
    fn free_number(&self) -> (free: Option<u32>)
        ensures
            match free {
                Some(number) => self.is_next(number),
                None => forall|other: u32| other != 0 ==> self.in_flight(other),
            },
    {
        match self.free_number_from(self.response_callbacks_counter) {
            Some(number) => Some(number),
            None => match self.free_number_from(1) {
                Some(number) => {
                    if number < self.response_callbacks_counter {
                        Some(number)
                    } else {
                        None
                    }
                },
                None => None,
            },
        }
    }

    /// Remembers a sink under a fresh sequence number, which is returned.
    /// Where every sequence number is in flight, the sink is handed back.
    pub fn add(&mut self, sink: S, deadline: u64) -> (added: Result<u32, S>)
        ensures
            match added {
                Ok(number) => {
                    &&& old(self).is_next(number)
                    &&& final(self).sinks() == old(self).sinks().insert(number, sink)
                    &&& final(self).deadlines() == old(self).deadlines().insert(number, deadline)
                    &&& final(self).counter() == counter_after(number)
                },
                Err(returned) => {
                    &&& returned == sink
                    &&& *final(self) == *old(self)
                    &&& forall|other: u32| other != 0 ==> old(self).in_flight(other)
                },
            },
    {
        proof {
            use_type_invariant(&*self);
        }
        let ghost before = *self;
        let ghost numbers = self.numbers();
        let number = match self.free_number() {
            Some(number) => number,
            None => {
                return Err(sink);
            },
        };
        let at = self.position(number);
        let mut queue = self.take_queue();
        queue.insert(at.0, PendingRequest { sequence_number: number, deadline, sink });
        let ghost after = numbers_of(queue@);
        assert(after =~= numbers.insert(at.0 as int, number));
        assert forall|i: int, j: int| 0 <= i < j < after.len() implies after[i] < after[j] by {
            if j < at.0 {
                assert(numbers[i] < numbers[j]);
            } else if j == at.0 {
                assert(numbers[i] < number);
            } else if i < at.0 {
                assert(numbers[i] < number);
                assert(number < numbers[j - 1]);
            } else if i == at.0 {
                assert(number < numbers[j - 1]);
            } else {
                assert(numbers[i - 1] < numbers[j - 1]);
            }
        }
        self.response_callbacks_queue = queue;
        self.response_callbacks_counter = if number == u32::MAX {
            1
        } else {
            number + 1
        };
        proof {
            let now_numbers = self.numbers();
            assert(now_numbers =~= after);
            assert forall|other: u32| now_numbers.contains(other) <==> (numbers.contains(other)
                || other == number) by {
                if now_numbers.contains(other) {
                    let j = choose|j: int| 0 <= j < now_numbers.len() && now_numbers[j] == other;
                    if j < at.0 {
                        assert(numbers[j] == other);
                    } else if j > at.0 {
                        assert(numbers[j - 1] == other);
                    }
                }
                if numbers.contains(other) {
                    let j = choose|j: int| 0 <= j < numbers.len() && numbers[j] == other;
                    if j < at.0 {
                        assert(now_numbers[j] == other);
                    } else {
                        assert(now_numbers[j + 1] == other);
                    }
                }
                if other == number {
                    assert(now_numbers[at.0 as int] == other);
                }
            }
            assert forall|other: u32| numbers.contains(other) implies self.sink_at(
                now_numbers.index_of(other),
            ) == before.sink_at(numbers.index_of(other)) && self.deadline_at(
                now_numbers.index_of(other),
            ) == before.deadline_at(numbers.index_of(other)) by {
                let j = numbers.index_of(other);
                let k = now_numbers.index_of(other);
                assert(now_numbers.contains(other));
                let j1 = if j < at.0 { j } else { j + 1 };
                assert(now_numbers[j1] == other);
                assert(j1 == k) by {
                    if j1 < k {
                        assert(now_numbers[j1] < now_numbers[k]);
                    } else if k < j1 {
                        assert(now_numbers[k] < now_numbers[j1]);
                    }
                }
            }
            assert(now_numbers.index_of(number) == at.0) by {
                let k = now_numbers.index_of(number);
                assert(now_numbers.contains(number));
                if k < at.0 {
                    assert(now_numbers[k] < now_numbers[at.0 as int]);
                } else if at.0 < k {
                    assert(now_numbers[at.0 as int] < now_numbers[k]);
                }
            }
            assert(self.sinks() =~= before.sinks().insert(number, sink));
            assert(self.deadlines() =~= before.deadlines().insert(number, deadline));
        }
        Ok(number)
    }

    /// Forgets the request with a sequence number, if it is in flight, and
    /// hands out what was remembered of it.
    pub fn take(&mut self, sequence_number: u32) -> (taken: Option<PendingRequest<S>>)
        ensures
            final(self).counter() == old(self).counter(),
            final(self).sinks() == old(self).sinks().remove(sequence_number),
            final(self).deadlines() == old(self).deadlines().remove(sequence_number),
            match taken {
                Some(request) => old(self).in_flight(sequence_number) && request.sequence_number
                    == sequence_number && request.sink == old(self).sinks()[sequence_number]
                    && request.deadline == old(self).deadlines()[sequence_number],
                None => !old(self).in_flight(sequence_number) && *final(self) == *old(self),
            },
    {
        proof {
            use_type_invariant(&*self);
        }
        let ghost before = *self;
        let ghost numbers = self.numbers();
        let at = self.position(sequence_number);
        if !at.1 {
            proof {
                assert(self.sinks() =~= before.sinks().remove(sequence_number));
                assert(self.deadlines() =~= before.deadlines().remove(sequence_number));
            }
            return None;
        }
        proof {
            let k = numbers.index_of(sequence_number);
            if k < at.0 {
                assert(numbers[k] < numbers[at.0 as int]);
            } else if at.0 < k {
                assert(numbers[at.0 as int] < numbers[k]);
            }
        }
        let mut queue = self.take_queue();
        let request = queue.remove(at.0);
        let ghost after = numbers_of(queue@);
        assert(after =~= numbers.remove(at.0 as int));
        assert forall|i: int, j: int| 0 <= i < j < after.len() implies after[i] < after[j] by {
            let i0 = if i < at.0 { i } else { i + 1 };
            let j0 = if j < at.0 { j } else { j + 1 };
            assert(numbers[i0] < numbers[j0]);
        }
        assert forall|i: int| 0 <= i < after.len() implies after[i] != 0 by {
            let i0 = if i < at.0 { i } else { i + 1 };
            assert(numbers[i0] != 0);
        }
        self.response_callbacks_queue = queue;
        proof {
            let now_numbers = self.numbers();
            assert(now_numbers =~= after);
            assert forall|other: u32| now_numbers.contains(other) <==> (numbers.contains(other)
                && other != sequence_number) by {
                if now_numbers.contains(other) {
                    let j = choose|j: int| 0 <= j < now_numbers.len() && now_numbers[j] == other;
                    let j0 = if j < at.0 { j } else { j + 1 };
                    assert(numbers[j0] == other);
                    if j0 < at.0 {
                        assert(numbers[j0] < numbers[at.0 as int]);
                    } else {
                        assert(numbers[at.0 as int] < numbers[j0]);
                    }
                }
                if numbers.contains(other) && other != sequence_number {
                    let j = choose|j: int| 0 <= j < numbers.len() && numbers[j] == other;
                    if j < at.0 {
                        assert(now_numbers[j] == other);
                    } else {
                        assert(now_numbers[j - 1] == other);
                    }
                }
            }
            assert forall|other: u32| now_numbers.contains(other) implies self.sink_at(
                now_numbers.index_of(other),
            ) == before.sink_at(numbers.index_of(other)) && self.deadline_at(
                now_numbers.index_of(other),
            ) == before.deadline_at(numbers.index_of(other)) by {
                let k = now_numbers.index_of(other);
                let k0 = if k < at.0 { k } else { k + 1 };
                assert(numbers[k0] == other);
                let j = numbers.index_of(other);
                assert(numbers.contains(other));
                if j < k0 {
                    assert(numbers[j] < numbers[k0]);
                } else if k0 < j {
                    assert(numbers[k0] < numbers[j]);
                }
            }
            assert(self.sinks() =~= before.sinks().remove(sequence_number));
            assert(self.deadlines() =~= before.deadlines().remove(sequence_number));
        }
        Some(request)
    }

    /// Forgets the request with the least sequence number among those whose
    /// deadline has passed, and hands out what was remembered of it: its
    /// sink is to be told that the wait has ended.
    pub fn take_expired(&mut self, now: u64) -> (taken: Option<PendingRequest<S>>)
        ensures
            final(self).counter() == old(self).counter(),
            match taken {
                Some(request) => {
                    &&& old(self).in_flight(request.sequence_number)
                    &&& request.deadline <= now
                    &&& request.deadline == old(self).deadlines()[request.sequence_number]
                    &&& request.sink == old(self).sinks()[request.sequence_number]
                    &&& forall|other: u32|
                        old(self).in_flight(other) && other < request.sequence_number ==> old(
                            self,
                        ).deadlines()[other] > now
                    &&& final(self).sinks() == old(self).sinks().remove(request.sequence_number)
                    &&& final(self).deadlines() == old(self).deadlines().remove(
                        request.sequence_number,
                    )
                },
                None => {
                    &&& *final(self) == *old(self)
                    &&& forall|other: u32|
                        old(self).in_flight(other) ==> old(self).deadlines()[other] > now
                },
            },
    {
        proof {
            use_type_invariant(&*self);
        }
        let ghost numbers = self.numbers();
        let mut i: usize = 0;
        while i < self.response_callbacks_queue.len()
            invariant
                *self == *old(self),
                numbers == self.numbers(),
                numbers.len() == self.response_callbacks_queue@.len(),
                forall|a: int, b: int| 0 <= a < b < numbers.len() ==> numbers[a] < numbers[b],
                i <= numbers.len(),
                forall|j: int| 0 <= j < i ==> self.deadline_at(j) > now,
            decreases self.response_callbacks_queue@.len() - i,
        {
            if self.response_callbacks_queue[i].deadline <= now {
                let number = self.response_callbacks_queue[i].sequence_number;
                proof {
                    assert(numbers[i as int] == number);
                    assert forall|other: u32| numbers.contains(other) && other < number implies
                        self.deadline_at(numbers.index_of(other)) > now by {
                        let k = numbers.index_of(other);
                        if k >= i {
                            if k > i {
                                assert(numbers[i as int] < numbers[k]);
                            }
                        }
                    }
                    let k = numbers.index_of(number);
                    if k < i {
                        assert(numbers[k] < numbers[i as int]);
                    } else if k > i {
                        assert(numbers[i as int] < numbers[k]);
                    }
                }
                return self.take(number);
            }
            i += 1;
        }
        proof {
            assert forall|other: u32| numbers.contains(other) implies self.deadline_at(
                numbers.index_of(other),
            ) > now by {}
        }
        None
    }

    /// Sequence-number uniqueness: no two requests in flight share a
    /// sequence number, and the reserved number zero is never in flight.
    pub proof fn lemma_numbers_unique(&self)
        requires
            self.wf(),
        ensures
            self.numbers().no_duplicates(),
            !self.in_flight(0),
    {
        let numbers = self.numbers();
        assert forall|i: int, j: int|
            0 <= i < numbers.len() && 0 <= j < numbers.len() && i != j implies numbers[i]
            != numbers[j] by {
            if i < j {
                assert(numbers[i] < numbers[j]);
            } else {
                assert(numbers[j] < numbers[i]);
            }
        }
    }

    /// A response fires once: when the request with a sequence number is
    /// taken out, as `take` does, that number is in flight no more, so that
    /// a second response with it finds nobody; every other request stays.
    pub proof fn lemma_taken_once(before: Map<u32, S>, sequence_number: u32)
        ensures
            !before.remove(sequence_number).contains_key(sequence_number),
            forall|other: u32|
                other != sequence_number && before.contains_key(other) ==> before.remove(
                    sequence_number,
                ).contains_key(other) && before.remove(sequence_number)[other] == before[other],
    {
    }
}

} // verus!
