//! Record of a simulation run: the value of each of a set of named
//! variables at each recorded time.
use vstd::prelude::*;
use crate::fixed::Fixed;

verus! {

pub struct History {
    /// Time of each sample, in seconds.
    pub time_vector: Vec<Fixed>,
    /// Name of each variable.
    pub name_vector: Vec<String>,
    /// Samples of each variable.
    pub data_vector: Vec<Vec<Fixed>>,
    pub data_size: usize,
}

impl History {
    /// Times recorded so far.
    pub open spec fn times(&self) -> Seq<Fixed> {
        self.time_vector@
    }

    /// Number of variables that hold samples.
    pub open spec fn series_count(&self) -> nat {
        self.data_vector@.len()
    }

    /// Samples recorded so far of variable `i`.
    pub open spec fn series(&self, i: int) -> Seq<Fixed> {
        self.data_vector@[i]@
    }

    /// An empty record of the variables `names`.
    pub fn new(names: Vec<String>) -> (h: History)
        ensures
            h.times().len() == 0,
            h.series_count() == 0,
            h.name_vector == names,
            h.data_size == names@.len(),
    {
        let data_size = names.len();
        History {
            time_vector: Vec::new(),
            name_vector: names,
            data_vector: Vec::new(),
            data_size,
        }
    }

    /// Records the values before the first step: `start_time` becomes a
    /// recorded time and each value starts a series of its own.
    pub fn init(&mut self, start_time: Fixed, values: Vec<Fixed>)
        ensures
            final(self).times() == old(self).times().push(start_time),
            final(self).series_count() == old(self).series_count() + values@.len(),
            forall|i: int|
                0 <= i < old(self).series_count() ==> final(self).series(i) == old(self).series(i),
            forall|i: int|
                0 <= i < values@.len() ==> #[trigger] final(self).series(
                    old(self).series_count() + i,
                ) == seq![values@[i]],
            final(self).name_vector == old(self).name_vector,
            final(self).data_size == old(self).data_size,
    {
        self.time_vector.push(start_time);
        let mut idx: usize = 0;
        while idx < values.len()
            invariant
                idx <= values@.len(),
                self.time_vector@ == old(self).time_vector@.push(start_time),
                self.name_vector == old(self).name_vector,
                self.data_size == old(self).data_size,
                self.data_vector@.len() == old(self).data_vector@.len() + idx,
                forall|i: int|
                    0 <= i < old(self).data_vector@.len() ==> self.data_vector@[i]
                        == old(self).data_vector@[i],
                forall|i: int|
                    0 <= i < idx ==> (#[trigger] self.data_vector@[old(self).data_vector@.len()
                        + i])@ == seq![values@[i]],
            decreases values@.len() - idx,
        {
            let mut series: Vec<Fixed> = Vec::new();
            series.push(values[idx]);
            assert(series@ =~= seq![values@[idx as int]]);
            self.data_vector.push(series);
            idx += 1;
        }
    }

    /// Records a step: the time moves on by `delta_time` from the last
    /// recorded one, and each value joins the series of its variable.
    pub fn update(&mut self, delta_time: Fixed, values: Vec<Fixed>)
        requires
            old(self).times().len() > 0,
            values@.len() <= old(self).series_count(),
        ensures
            final(self).times() == old(self).times().push(
                old(self).times().last().spec_plus(delta_time),
            ),
            final(self).series_count() == old(self).series_count(),
            forall|i: int|
                0 <= i < values@.len() ==> #[trigger] final(self).series(i) == old(self).series(
                    i,
                ).push(values@[i]),
            forall|i: int|
                values@.len() <= i < old(self).series_count() ==> final(self).series(i) == old(
                    self,
                ).series(i),
            final(self).name_vector == old(self).name_vector,
            final(self).data_size == old(self).data_size,
    {
        let last = self.time_vector[self.time_vector.len() - 1];
        self.time_vector.push(last.plus(delta_time));
        self.pushData(values);
    }

    /// Appends each value to the series of its variable.
    #[allow(non_snake_case)]
    pub fn pushData(&mut self, values: Vec<Fixed>)
        requires
            values@.len() <= old(self).series_count(),
        ensures
            final(self).times() == old(self).times(),
            final(self).series_count() == old(self).series_count(),
            forall|i: int|
                0 <= i < values@.len() ==> #[trigger] final(self).series(i) == old(self).series(
                    i,
                ).push(values@[i]),
            forall|i: int|
                values@.len() <= i < old(self).series_count() ==> final(self).series(i) == old(
                    self,
                ).series(i),
            final(self).name_vector == old(self).name_vector,
            final(self).data_size == old(self).data_size,
    {
        let mut idx: usize = 0;
        while idx < values.len()
            invariant
                idx <= values@.len(),
                values@.len() <= old(self).data_vector@.len(),
                self.time_vector == old(self).time_vector,
                self.name_vector == old(self).name_vector,
                self.data_size == old(self).data_size,
                self.data_vector@.len() == old(self).data_vector@.len(),
                forall|i: int|
                    0 <= i < idx ==> (#[trigger] self.data_vector@[i])@ == old(
                        self,
                    ).data_vector@[i]@.push(values@[i]),
                forall|i: int|
                    idx <= i < self.data_vector@.len() ==> self.data_vector@[i] == old(
                        self,
                    ).data_vector@[i],
            decreases values@.len() - idx,
        {
            self.data_vector[idx].push(values[idx]);
            idx += 1;
        }
    }
}

} // verus!
