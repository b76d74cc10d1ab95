use vstd::prelude::*;
use crate::reporter::{PerformanceTable, Stage};

verus! {

/// Number of samples of each worker's rate that the dashboard keeps.
pub const HISTORY_LEN: usize = 300;

/// A rolling history after one more sample: the sample is appended, and the
/// oldest sample leaves once the history would grow past `HISTORY_LEN`.
pub open spec fn push_bounded(h: Seq<u32>, x: u32) -> Seq<u32> {
    let g = h.push(x);
    if g.len() > HISTORY_LEN {
        g.drop_first()
    } else {
        g
    }
}

/// The histories of a stage as sequences of samples.
pub open spec fn rows_view(rows: Seq<Vec<u32>>) -> Seq<Seq<u32>> {
    Seq::new(rows.len(), |i: int| rows[i]@)
}

/// The sample that a stage's table row gives worker `i`: its latest rate, or
/// zero when the table has no entry for it.
pub open spec fn sample_for(row: Seq<u32>, i: int) -> u32 {
    if 0 <= i < row.len() {
        row[i]
    } else {
        0
    }
}

/// A stage's histories after one round of sampling its table row.
pub open spec fn rows_after(rows: Seq<Seq<u32>>, row: Seq<u32>) -> Seq<Seq<u32>> {
    Seq::new(rows.len(), |i: int| push_bounded(rows[i], sample_for(row, i)))
}

/// The history `h` with the sample `x` appended, keeping at most
/// `HISTORY_LEN` of the latest samples.
fn pushed_history(h: &Vec<u32>, x: u32) -> (r: Vec<u32>)
    ensures
        r@ == push_bounded(h@, x),
{
    let start: usize = if h.len() >= HISTORY_LEN {
        1
    } else {
        0
    };
    let mut r: Vec<u32> = Vec::new();
    let mut i: usize = start;
    while i < h.len()
        invariant
            start <= i <= h.len(),
            start == (if h@.len() >= HISTORY_LEN { 1int } else { 0int }),
            r@ == h@.subrange(start as int, i as int),
        decreases h.len() - i,
    {
        r.push(h[i]);
        i = i + 1;
        proof {
            assert(r@ =~= h@.subrange(start as int, i as int));
        }
    }
    r.push(x);
    proof {
        assert(r@ =~= push_bounded(h@, x));
    }
    r
}

/// Adds one round of samples from `row` to the histories of one stage.
fn record_rows(rows: &mut Vec<Vec<u32>>, row: &Vec<u32>)
    ensures
        rows_view(final(rows)@) == rows_after(rows_view(old(rows)@), row@),
{
    let ghost start = rows_view(rows@);
    let mut i: usize = 0;
    while i < rows.len()
        invariant
            i <= rows.len(),
            rows@.len() == start.len(),
            forall|j: int| 0 <= j < i ==> #[trigger] rows@[j]@ == push_bounded(start[j], sample_for(row@, j)),
            forall|j: int| i <= j < rows@.len() ==> #[trigger] rows@[j]@ == start[j],
        decreases rows.len() - i,
    {
        let sample: u32 = if i < row.len() {
            row[i]
        } else {
            0
        };
        let next = pushed_history(&rows[i], sample);
        rows.set(i, next);
        i = i + 1;
    }
    proof {
        assert(rows_view(rows@) =~= rows_after(start, row@));
    }
}

/// The operator dashboard's own state: a rolling history of every worker's
/// throughput, one row of histories per stage.
pub struct MyApp {
    pub producer_history: Vec<Vec<u32>>,
    pub layer1_history: Vec<Vec<u32>>,
    pub layer2_history: Vec<Vec<u32>>,
}

impl MyApp {
    pub open spec fn history_view(&self, s: Stage) -> Seq<Seq<u32>> {
        match s {
            Stage::Producer => rows_view(self.producer_history@),
            Stage::Layer1 => rows_view(self.layer1_history@),
            Stage::Layer2 => rows_view(self.layer2_history@),
        }
    }

    /// No history holds more than `HISTORY_LEN` samples.
    pub open spec fn wf(&self) -> bool {
        forall|s: Stage, i: int|
            0 <= i < self.history_view(s).len() ==> (#[trigger] self.history_view(s)[i]).len()
                <= HISTORY_LEN
    }

    /// A dashboard with an empty history for each worker of each stage.
    pub fn new(producers: usize, layer1: usize, layer2: usize) -> (r: MyApp)
        ensures
            r.wf(),
            r.history_view(Stage::Producer) == Seq::new(producers as nat, |_i: int| Seq::<u32>::empty()),
            r.history_view(Stage::Layer1) == Seq::new(layer1 as nat, |_i: int| Seq::<u32>::empty()),
            r.history_view(Stage::Layer2) == Seq::new(layer2 as nat, |_i: int| Seq::<u32>::empty()),
    {
        let r = MyApp {
            producer_history: empty_rows(producers),
            layer1_history: empty_rows(layer1),
            layer2_history: empty_rows(layer2),
        };
        proof {
            assert(r.history_view(Stage::Producer) =~= Seq::new(producers as nat, |_i: int| Seq::<u32>::empty()));
            assert(r.history_view(Stage::Layer1) =~= Seq::new(layer1 as nat, |_i: int| Seq::<u32>::empty()));
            assert(r.history_view(Stage::Layer2) =~= Seq::new(layer2 as nat, |_i: int| Seq::<u32>::empty()));
        }
        r
    }

    /// Takes one round of samples: each worker's history gains its latest rate
    /// from `table` (zero where the table has no entry for it).
    pub fn record_samples(&mut self, table: &PerformanceTable)
        requires
            old(self).wf(),
        ensures
            final(self).wf(),
            forall|s: Stage|
                #![auto]
                final(self).history_view(s) == rows_after(
                    old(self).history_view(s),
                    table.view().row(s),
                ),
    {
        record_rows(&mut self.producer_history, &table.producer);
        record_rows(&mut self.layer1_history, &table.layer1);
        record_rows(&mut self.layer2_history, &table.layer2);
        proof {
            assert forall|s: Stage, i: int|
                0 <= i < self.history_view(s).len() implies (#[trigger] self.history_view(s)[i]).len()
                    <= HISTORY_LEN by {
                assert(old(self).history_view(s)[i].len() <= HISTORY_LEN);
            }
        }
    }
}

impl Default for MyApp {
    /// A dashboard that watches no workers yet.
    fn default() -> (r: MyApp)
        ensures
            r.wf(),
            r.history_view(Stage::Producer).len() == 0,
            r.history_view(Stage::Layer1).len() == 0,
            r.history_view(Stage::Layer2).len() == 0,
    {
        MyApp::new(0, 0, 0)
    }
}

/// `n` empty histories.
fn empty_rows(n: usize) -> (r: Vec<Vec<u32>>)
    ensures
        rows_view(r@) == Seq::new(n as nat, |_i: int| Seq::<u32>::empty()),
{
    let mut v: Vec<Vec<u32>> = Vec::new();
    let mut i: usize = 0;
    while i < n
        invariant
            i <= n,
            v@.len() == i,
            forall|j: int| 0 <= j < i ==> (#[trigger] v@[j])@ == Seq::<u32>::empty(),
        decreases n - i,
    {
        v.push(Vec::new());
        i = i + 1;
    }
    proof {
        assert(rows_view(v@) =~= Seq::new(n as nat, |_i: int| Seq::<u32>::empty()));
    }
    v
}

} // verus!
