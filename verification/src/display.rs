use vstd::prelude::*;

use crate::text::{concat, decimal, number, owned, same};

verus! {

/// The progress of one stage: how many of its steps are done, and what it
/// shows.
#[derive(Clone, Debug, PartialEq, Eq)]
pub struct Address {
    pub position: u64,
    pub num_tasks: usize,
    pub prefix: String,
    pub message: String,
}

/// Mathematical value of an [`Address`].
pub struct AddressView {
    pub position: u64,
    pub num_tasks: usize,
    pub prefix: Seq<char>,
    pub message: Seq<char>,
}

impl DeepView for Address {
    type V = AddressView;

    open spec fn deep_view(&self) -> AddressView {
        AddressView {
            position: self.position,
            num_tasks: self.num_tasks,
            prefix: self.prefix@,
            message: self.message@,
        }
    }
}

/// What a stage shows before its progress: the steps done and the steps in
/// all, between square brackets.
pub open spec fn prefix_spec(position: u64, num_tasks: usize) -> Seq<char> {
    "["@ + decimal(position as nat) + "/"@ + decimal(num_tasks as nat) + "]"@
}

/// What a stage shows before any of its steps is done.
pub open spec fn unknown_prefix(num_tasks: usize) -> Seq<char> {
    "[?/"@ + decimal(num_tasks as nat) + "]"@
}

/// The number of steps done after `delta` more, which stops at the largest
/// number that can be counted.
pub open spec fn advanced(position: u64, delta: u64) -> u64 {
    if position + delta > u64::MAX {
        u64::MAX
    } else {
        (position + delta) as u64
    }
}

impl Address {
    /// The progress of a stage of `num_tasks` steps, none of them done.
    pub open spec fn new_spec(num_tasks: usize) -> AddressView {
        AddressView {
            position: 0,
            num_tasks,
            prefix: unknown_prefix(num_tasks),
            message: Seq::empty(),
        }
    }

    /// The progress of a stage of `num_tasks` steps, none of them done.
    pub fn new(num_tasks: usize) -> (r: Address)
        ensures
            r.deep_view() == Address::new_spec(num_tasks),
    {
        let mut prefix = owned("[?/");
        let total = number(num_tasks as u64);
        prefix.append(total.as_str());
        prefix.append("]");
        Address { position: 0, num_tasks, prefix, message: String::new() }
    }

    /// Takes note of progress: `delta` more steps are done where a delta is
    /// given, and the message is replaced where one is given.
    pub fn send(&mut self, delta: Option<u64>, msg: Option<String>)
        ensures
            final(self).num_tasks == old(self).num_tasks,
            final(self).position == match delta {
                Some(d) => advanced(old(self).position, d),
                None => old(self).position,
            },
            final(self).prefix@ == match delta {
                Some(d) => prefix_spec(advanced(old(self).position, d), old(self).num_tasks),
                None => old(self).prefix@,
            },
            final(self).message@ == match msg {
                Some(m) => m@,
                None => old(self).message@,
            },
    {
        match delta {
            Some(d) => {
                let position = if d > u64::MAX - self.position {
                    u64::MAX
                } else {
                    self.position + d
                };
                let mut prefix = owned("[");
                let done = number(position);
                prefix.append(done.as_str());
                prefix.append("/");
                let total = number(self.num_tasks as u64);
                prefix.append(total.as_str());
                prefix.append("]");
                self.position = position;
                self.prefix = prefix;
            },
            None => {},
        }
        match msg {
            Some(m) => {
                self.message = m;
            },
            None => {},
        }
    }

    /// A copy of this progress.
    pub fn duplicate(&self) -> (r: Address)
        ensures
            r.deep_view() == self.deep_view(),
    {
        Address {
            position: self.position,
            num_tasks: self.num_tasks,
            prefix: self.prefix.clone(),
            message: self.message.clone(),
        }
    }
}

/// The progress of every stage of a run, by the stage's name.
#[derive(Clone, Debug, PartialEq, Eq)]
pub struct Screen {
    pub bars: Vec<(String, Address)>,
}

/// The progress of the first stage of that name.
pub open spec fn find_bar(bars: Seq<(Seq<char>, AddressView)>, name: Seq<char>) -> Option<
    AddressView,
>
    decreases bars.len(),
{
    if bars.len() == 0 {
        None
    } else if bars.last().0 == name {
        Some(bars.last().1)
    } else {
        find_bar(bars.drop_last(), name)
    }
}

impl Screen {
    /// A display that shows no stage yet.
    pub fn new() -> (r: Screen)
        ensures
            r.bars.deep_view() == Seq::<(Seq<char>, AddressView)>::empty(),
    {
        let r = Screen { bars: Vec::new() };
        assert(r.bars.deep_view() =~= Seq::<(Seq<char>, AddressView)>::empty());
        r
    }

    /// Adds a stage of `num_tasks` steps under a name, and hands out its
    /// progress. A stage that is registered later under the same name is the
    /// one that the name stands for.
    pub fn register(&mut self, name: &str, num_tasks: usize) -> (r: Address)
        ensures
            r.deep_view() == Address::new_spec(num_tasks),
            final(self).bars.deep_view() == old(self).bars.deep_view().push(
                (name@, Address::new_spec(num_tasks)),
            ),
    {
        let handle = Address::new(num_tasks);
        let ghost before = self.bars.deep_view();
        self.bars.push((owned(name), handle.duplicate()));
        assert(self.bars.deep_view() =~= before.push((name@, Address::new_spec(num_tasks))));
        handle
    }

    /// The progress of the stage that a name stands for.
    pub fn get(&self, language: &str) -> (r: Result<Address, String>)
        ensures
            match r {
                Ok(handle) => find_bar(self.bars.deep_view(), language@) == Some(
                    handle.deep_view(),
                ),
                Err(message) => find_bar(self.bars.deep_view(), language@) is None && message@
                    == "Fetching progress bar for "@ + language@,
            },
    {
        let ghost all = self.bars.deep_view();
        let mut i: usize = self.bars.len();
        assert(all.take(i as int) =~= all);
        while i > 0
            invariant
                i <= self.bars.len(),
                all == self.bars.deep_view(),
                find_bar(all, language@) == find_bar(all.take(i as int), language@),
            decreases i,
        {
            proof {
                let upto = all.take(i as int);
                assert(upto.drop_last() =~= all.take(i - 1));
                assert(upto.last() == all[i - 1]);
                assert(all[i - 1] == self.bars[i - 1].deep_view());
            }
            if same(self.bars[i - 1].0.as_str(), language) {
                return Ok(self.bars[i - 1].1.duplicate());
            }
            i -= 1;
        }
        assert(all.take(0).len() == 0);
        Err(concat("Fetching progress bar for ", language))
    }
}

} // verus!
