use vstd::prelude::*;

verus! {

/// The pipeline stage a worker belongs to.
#[derive(Debug, Clone, Copy, PartialEq, Eq, Structural)]
pub enum Stage {
    Producer,
    Layer1,
    Layer2,
}

/// A throughput sample from one worker: its identity and its rate, in messages
/// (or, for layer 2, batches) per second.
#[derive(Debug, Clone, Copy, PartialEq, Eq, Structural)]
pub enum Report {
    Producer(usize, u32),
    Layer1(usize, u32),
    Layer2(usize, u32),
}

impl Report {
    pub open spec fn stage_of(self) -> Stage {
        match self {
            Report::Producer(..) => Stage::Producer,
            Report::Layer1(..) => Stage::Layer1,
            Report::Layer2(..) => Stage::Layer2,
        }
    }

    pub open spec fn id_of(self) -> usize {
        match self {
            Report::Producer(id, _) => id,
            Report::Layer1(id, _) => id,
            Report::Layer2(id, _) => id,
        }
    }

    pub open spec fn rate_of(self) -> u32 {
        match self {
            Report::Producer(_, r) => r,
            Report::Layer1(_, r) => r,
            Report::Layer2(_, r) => r,
        }
    }

    /// The identity of the worker that sent this report.
    pub fn id(&self) -> (r: usize)
        ensures
            r == self.id_of(),
    {
        match self {
            Report::Producer(id, _) => *id,
            Report::Layer1(id, _) => *id,
            Report::Layer2(id, _) => *id,
        }
    }

    /// The stage that sent this report.
    pub fn stage(&self) -> (r: Stage)
        ensures
            r == self.stage_of(),
    {
        match self {
            Report::Producer(..) => Stage::Producer,
            Report::Layer1(..) => Stage::Layer1,
            Report::Layer2(..) => Stage::Layer2,
        }
    }
}

/// The latest rate of each worker, one row per stage, indexed by worker id.
pub struct PerformanceTable {
    pub producer: Vec<u32>,
    pub layer1: Vec<u32>,
    pub layer2: Vec<u32>,
}

/// The table's contents: one sequence of rates per stage.
pub struct TableView {
    pub producer: Seq<u32>,
    pub layer1: Seq<u32>,
    pub layer2: Seq<u32>,
}

impl TableView {
    pub open spec fn row(self, s: Stage) -> Seq<u32> {
        match s {
            Stage::Producer => self.producer,
            Stage::Layer1 => self.layer1,
            Stage::Layer2 => self.layer2,
        }
    }

    /// The table after one report: the entry of its worker takes its rate, the
    /// latest write winning; a report from a worker the table has no entry for
    /// leaves the table as it was.
    pub open spec fn apply(self, r: Report) -> TableView {
        let row = self.row(r.stage_of());
        if r.id_of() < row.len() {
            let new_row = row.update(r.id_of() as int, r.rate_of());
            match r.stage_of() {
                Stage::Producer => TableView { producer: new_row, ..self },
                Stage::Layer1 => TableView { layer1: new_row, ..self },
                Stage::Layer2 => TableView { layer2: new_row, ..self },
            }
        } else {
            self
        }
    }

    /// The table after a run of reports, taken in arrival order.
    pub open spec fn apply_all(self, rs: Seq<Report>) -> TableView
        decreases rs.len(),
    {
        if rs.len() == 0 {
            self
        } else {
            self.apply_all(rs.drop_last()).apply(rs.last())
        }
    }
}

impl PerformanceTable {
    pub open spec fn view(&self) -> TableView {
        TableView { producer: self.producer@, layer1: self.layer1@, layer2: self.layer2@ }
    }

    /// A table with a zero entry for each worker of each stage.
    pub fn new(producers: usize, layer1: usize, layer2: usize) -> (r: PerformanceTable)
        ensures
            r.view().producer == Seq::new(producers as nat, |_i: int| 0u32),
            r.view().layer1 == Seq::new(layer1 as nat, |_i: int| 0u32),
            r.view().layer2 == Seq::new(layer2 as nat, |_i: int| 0u32),
    {
        PerformanceTable {
            producer: zeros(producers),
            layer1: zeros(layer1),
            layer2: zeros(layer2),
        }
    }

    /// The latest rate of worker `id` of stage `s`, if the table has that worker.
    pub fn get(&self, s: Stage, id: usize) -> (r: Option<u32>)
        ensures
            id < self.view().row(s).len() ==> r == Some(self.view().row(s)[id as int]),
            id >= self.view().row(s).len() ==> r is None,
    {
        let row = match s {
            Stage::Producer => &self.producer,
            Stage::Layer1 => &self.layer1,
            Stage::Layer2 => &self.layer2,
        };
        if id < row.len() {
            Some(row[id])
        } else {
            None
        }
    }

    /// Records one report; returns whether the table has an entry for its worker.
    pub fn apply(&mut self, r: Report) -> (applied: bool)
        ensures
            final(self).view() == old(self).view().apply(r),
            applied == (r.id_of() < old(self).view().row(r.stage_of()).len()),
    {
        match r {
            Report::Producer(id, rate) => {
                if id < self.producer.len() {
                    self.producer.set(id, rate);
                    true
                } else {
                    false
                }
            },
            Report::Layer1(id, rate) => {
                if id < self.layer1.len() {
                    self.layer1.set(id, rate);
                    true
                } else {
                    false
                }
            },
            Report::Layer2(id, rate) => {
                if id < self.layer2.len() {
                    self.layer2.set(id, rate);
                    true
                } else {
                    false
                }
            },
        }
    }

    /// Records a run of reports in arrival order.
    pub fn apply_all(&mut self, rs: &Vec<Report>)
        ensures
            final(self).view() == old(self).view().apply_all(rs@),
    {
        let ghost start = self.view();
        let mut i: usize = 0;
        while i < rs.len()
            invariant
                i <= rs.len(),
                self.view() == start.apply_all(rs@.take(i as int)),
            decreases rs.len() - i,
        {
            proof {
                assert(rs@.take(i as int + 1).drop_last() =~= rs@.take(i as int));
            }
            self.apply(rs[i]);
            i = i + 1;
        }
        proof {
            assert(rs@.take(rs.len() as int) =~= rs@);
        }
    }
}

/// A vector of `n` zeros.
fn zeros(n: usize) -> (r: Vec<u32>)
    ensures
        r@ == Seq::new(n as nat, |_i: int| 0u32),
{
    let mut v: Vec<u32> = Vec::new();
    let mut i: usize = 0;
    while i < n
        invariant
            i <= n,
            v@ == Seq::new(i as nat, |_i: int| 0u32),
        decreases n - i,
    {
        v.push(0);
        i = i + 1;
        proof {
            assert(v@ =~= Seq::new(i as nat, |_i: int| 0u32));
        }
    }
    v
}

} // verus!
