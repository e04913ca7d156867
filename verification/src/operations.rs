//! Operations that a runtime offers.

use vstd::prelude::*;

verus! {

/// One operation of the runtime interface.
#[derive(Clone, Copy, Debug, PartialEq, Eq, Structural)]
pub enum RuntimeOperation {
    Features,
    Create,
    State,
    List,
    Start,
    Kill,
    Delete,
    Wait,
    Exec,
    SignalProcess,
    WaitProcess,
    ReadOutput,
    WriteStdin,
    CloseStdin,
    Resize,
    Pause,
    Resume,
    Processes,
    Update,
    Stats,
    File,
    Filesystem,
    Events,
    Checkpoint,
    Restore,
}

/// The place of an operation in the order that inventories are kept in.
pub open spec fn operation_rank(operation: RuntimeOperation) -> int {
    match operation {
        RuntimeOperation::Features => 0,
        RuntimeOperation::Create => 1,
        RuntimeOperation::State => 2,
        RuntimeOperation::List => 3,
        RuntimeOperation::Start => 4,
        RuntimeOperation::Kill => 5,
        RuntimeOperation::Delete => 6,
        RuntimeOperation::Wait => 7,
        RuntimeOperation::Exec => 8,
        RuntimeOperation::SignalProcess => 9,
        RuntimeOperation::WaitProcess => 10,
        RuntimeOperation::ReadOutput => 11,
        RuntimeOperation::WriteStdin => 12,
        RuntimeOperation::CloseStdin => 13,
        RuntimeOperation::Resize => 14,
        RuntimeOperation::Pause => 15,
        RuntimeOperation::Resume => 16,
        RuntimeOperation::Processes => 17,
        RuntimeOperation::Update => 18,
        RuntimeOperation::Stats => 19,
        RuntimeOperation::File => 20,
        RuntimeOperation::Filesystem => 21,
        RuntimeOperation::Events => 22,
        RuntimeOperation::Checkpoint => 23,
        RuntimeOperation::Restore => 24,
    }
}

/// The place of an operation in the order that inventories are kept in.
pub fn rank(operation: RuntimeOperation) -> (place: u8)
    ensures
        place == operation_rank(operation),
{
    match operation {
        RuntimeOperation::Features => 0,
        RuntimeOperation::Create => 1,
        RuntimeOperation::State => 2,
        RuntimeOperation::List => 3,
        RuntimeOperation::Start => 4,
        RuntimeOperation::Kill => 5,
        RuntimeOperation::Delete => 6,
        RuntimeOperation::Wait => 7,
        RuntimeOperation::Exec => 8,
        RuntimeOperation::SignalProcess => 9,
        RuntimeOperation::WaitProcess => 10,
        RuntimeOperation::ReadOutput => 11,
        RuntimeOperation::WriteStdin => 12,
        RuntimeOperation::CloseStdin => 13,
        RuntimeOperation::Resize => 14,
        RuntimeOperation::Pause => 15,
        RuntimeOperation::Resume => 16,
        RuntimeOperation::Processes => 17,
        RuntimeOperation::Update => 18,
        RuntimeOperation::Stats => 19,
        RuntimeOperation::File => 20,
        RuntimeOperation::Filesystem => 21,
        RuntimeOperation::Events => 22,
        RuntimeOperation::Checkpoint => 23,
        RuntimeOperation::Restore => 24,
    }
}

/// An inventory in order, each operation once.
pub open spec fn ordered(operations: Seq<RuntimeOperation>) -> bool {
    forall|i: int, j: int|
        0 <= i < j < operations.len() ==> operation_rank(#[trigger] operations[i])
            < operation_rank(#[trigger] operations[j])
}

/// The operations that an agent carries out for a driver.
pub open spec fn agent_operation_list() -> Seq<RuntimeOperation> {
    seq![
        RuntimeOperation::Create,
        RuntimeOperation::State,
        RuntimeOperation::Start,
        RuntimeOperation::Kill,
        RuntimeOperation::Delete,
        RuntimeOperation::Wait,
        RuntimeOperation::Exec,
        RuntimeOperation::SignalProcess,
        RuntimeOperation::WaitProcess,
        RuntimeOperation::ReadOutput,
        RuntimeOperation::WriteStdin,
        RuntimeOperation::CloseStdin,
        RuntimeOperation::Resize,
        RuntimeOperation::Pause,
        RuntimeOperation::Resume,
        RuntimeOperation::Processes,
        RuntimeOperation::Update,
        RuntimeOperation::Stats,
        RuntimeOperation::File,
        RuntimeOperation::Filesystem,
    ]
}

/// The operations that a host service adds to those of its driver.
pub open spec fn service_operation_list() -> Seq<RuntimeOperation> {
    seq![RuntimeOperation::Features, RuntimeOperation::List, RuntimeOperation::Events]
}

/// The operations that an agent carries out for a driver.
pub fn agent_operations() -> (operations: Vec<RuntimeOperation>)
    ensures
        operations@ == agent_operation_list(),
{
    let operations = vec![
        RuntimeOperation::Create,
        RuntimeOperation::State,
        RuntimeOperation::Start,
        RuntimeOperation::Kill,
        RuntimeOperation::Delete,
        RuntimeOperation::Wait,
        RuntimeOperation::Exec,
        RuntimeOperation::SignalProcess,
        RuntimeOperation::WaitProcess,
        RuntimeOperation::ReadOutput,
        RuntimeOperation::WriteStdin,
        RuntimeOperation::CloseStdin,
        RuntimeOperation::Resize,
        RuntimeOperation::Pause,
        RuntimeOperation::Resume,
        RuntimeOperation::Processes,
        RuntimeOperation::Update,
        RuntimeOperation::Stats,
        RuntimeOperation::File,
        RuntimeOperation::Filesystem,
    ];
    assert(operations@ =~= agent_operation_list());
    operations
}

/// An ordered inventory of the operations of a list.
pub open spec fn is_inventory_of(
    inventory: Seq<RuntimeOperation>,
    operations: Seq<RuntimeOperation>,
) -> bool {
    &&& ordered(inventory)
    &&& forall|operation: RuntimeOperation|
        #![trigger inventory.contains(operation)]
        inventory.contains(operation) <==> operations.contains(operation)
}

fn insert_operation(inventory: &mut Vec<RuntimeOperation>, operation: RuntimeOperation)
    requires
        ordered(old(inventory)@),
    ensures
        is_inventory_of(final(inventory)@, old(inventory)@.push(operation)),
{
    let ghost before = inventory@;
    let mut place: usize = 0;
    while place < inventory.len() && rank(inventory[place]) < rank(operation)
        invariant
            place <= inventory@.len(),
            inventory@ == before,
            ordered(before),
            forall|i: int|
                0 <= i < place ==> operation_rank(#[trigger] before[i]) < operation_rank(operation),
        decreases inventory@.len() - place,
    {
        place = place + 1;
    }
    let ghost extended = before.push(operation);
    if place < inventory.len() && inventory[place] == operation {
        proof {
            assert forall|other: RuntimeOperation|
                #![trigger before.contains(other)]
                before.contains(other) <==> extended.contains(other) by {
                if extended.contains(other) {
                    let at = choose|at: int| 0 <= at < extended.len() && extended[at] == other;
                    if at < before.len() {
                        assert(before[at] == other);
                    } else {
                        assert(before[place as int] == other);
                    }
                }
                if before.contains(other) {
                    let at = choose|at: int| 0 <= at < before.len() && before[at] == other;
                    assert(extended[at] == other);
                }
            }
        }
        return;
    }
    inventory.insert(place, operation);
    proof {
        let after = inventory@;
        assert(after =~= before.insert(place as int, operation));
        assert forall|other: RuntimeOperation|
            #![trigger after.contains(other)]
            after.contains(other) <==> extended.contains(other) by {
            if extended.contains(other) {
                let at = choose|at: int| 0 <= at < extended.len() && extended[at] == other;
                if at == before.len() {
                    assert(after[place as int] == other);
                } else if at < place {
                    assert(after[at] == other);
                } else {
                    assert(after[at + 1] == other);
                }
            }
            if after.contains(other) {
                let at = choose|at: int| 0 <= at < after.len() && after[at] == other;
                if at == place {
                    assert(extended[before.len() as int] == other);
                } else if at < place {
                    assert(extended[at] == other);
                } else {
                    assert(extended[at - 1] == other);
                }
            }
        }
        assert forall|i: int, j: int| 0 <= i < j < after.len() implies operation_rank(
            #[trigger] after[i],
        ) < operation_rank(#[trigger] after[j]) by {
            if j == place {
                assert(after[i] == before[i]);
            } else if i == place {
                assert(after[j] == before[j - 1]);
                assert(operation_rank(before[place as int]) > operation_rank(operation));
                if j - 1 > place {
                    assert(operation_rank(before[place as int]) < operation_rank(before[j - 1]));
                }
            } else if i < place && j > place {
                assert(after[i] == before[i] && after[j] == before[j - 1]);
            } else if i > place {
                assert(after[i] == before[i - 1] && after[j] == before[j - 1]);
            } else {
                assert(after[i] == before[i] && after[j] == before[j]);
            }
        }
    }
}

/// The ordered inventory of a list of operations.
pub fn inventory_of(operations: &Vec<RuntimeOperation>) -> (inventory: Vec<RuntimeOperation>)
    ensures
        is_inventory_of(inventory@, operations@),
{
    let mut inventory: Vec<RuntimeOperation> = Vec::new();
    let mut next: usize = 0;
    while next < operations.len()
        invariant
            next <= operations@.len(),
            is_inventory_of(inventory@, operations@.take(next as int)),
        decreases operations@.len() - next,
    {
        let ghost before = inventory@;
        insert_operation(&mut inventory, operations[next]);
        proof {
            let taken = operations@.take(next + 1);
            let earlier = operations@.take(next as int);
            assert(taken =~= earlier.push(operations@[next as int]));
            assert forall|other: RuntimeOperation|
                #![trigger inventory@.contains(other)]
                inventory@.contains(other) <==> taken.contains(other) by {
                let extended = before.push(operations@[next as int]);
                if extended.contains(other) {
                    let at = choose|at: int| 0 <= at < extended.len() && extended[at] == other;
                    if at < before.len() {
                        assert(before[at] == other);
                        assert(before.contains(other));
                        let old_at = choose|k: int| 0 <= k < earlier.len() && earlier[k] == other;
                        assert(taken[old_at] == other);
                    } else {
                        assert(taken[next as int] == other);
                    }
                }
                if taken.contains(other) {
                    let at = choose|at: int| 0 <= at < taken.len() && taken[at] == other;
                    if at < next {
                        assert(earlier[at] == other);
                        assert(before.contains(other));
                        let b = choose|k: int| 0 <= k < before.len() && before[k] == other;
                        assert(extended[b] == other);
                    } else {
                        assert(extended[before.len() as int] == other);
                    }
                }
            }
        }
        next = next + 1;
    }
    assert(operations@.take(operations@.len() as int) =~= operations@);
    inventory
}

/// Records that an operation was exercised.
pub fn record_operation(exercised: &mut Vec<RuntimeOperation>, operation: RuntimeOperation)
    ensures
        is_inventory_of(final(exercised)@, old(exercised)@.push(operation)),
{
    exercised.push(operation);
    let inventory = inventory_of(exercised);
    *exercised = inventory;
}

/// The operations that a host service with an agent driver advertises, in order.
pub fn expected_operations() -> (operations: Vec<RuntimeOperation>)
    ensures
        is_inventory_of(operations@, agent_operation_list() + service_operation_list()),
{
    let mut all = agent_operations();
    all.push(RuntimeOperation::Features);
    all.push(RuntimeOperation::List);
    all.push(RuntimeOperation::Events);
    assert(all@ =~= agent_operation_list() + service_operation_list());
    inventory_of(&all)
}

/// Whether two lists hold the same operations in the same order.
pub fn same_operations(
    left: &Vec<RuntimeOperation>,
    right: &Vec<RuntimeOperation>,
) -> (same: bool)
    ensures
        same == (left@ == right@),
{
    if left.len() != right.len() {
        return false;
    }
    let mut next: usize = 0;
    while next < left.len()
        invariant
            next <= left@.len(),
            left@.len() == right@.len(),
            forall|i: int| 0 <= i < next ==> left@[i] == right@[i],
        decreases left@.len() - next,
    {
        if left[next] != right[next] {
            return false;
        }
        next = next + 1;
    }
    assert(left@ =~= right@);
    true
}

/// An inventory is fixed by the operations that it holds, whatever the order
/// or number of times in which they were recorded.
pub proof fn inventories_are_unique(
    first: Seq<RuntimeOperation>,
    second: Seq<RuntimeOperation>,
    operations: Seq<RuntimeOperation>,
)
    requires
        is_inventory_of(first, operations),
        is_inventory_of(second, operations),
    ensures
        first == second,
{
    same_members_same_inventory(first, second);
}

proof fn same_members_same_inventory(first: Seq<RuntimeOperation>, second: Seq<RuntimeOperation>)
    requires
        ordered(first),
        ordered(second),
        forall|operation: RuntimeOperation|
            #![trigger first.contains(operation)]
            first.contains(operation) <==> second.contains(operation),
    ensures
        first == second,
    decreases first.len(),
{
    if first.len() == 0 {
        if second.len() > 0 {
            assert(second.contains(second[0]));
            assert(first.contains(second[0]));
        }
        assert(first =~= second);
    } else {
        let a = first.last();
        assert(first[first.len() - 1] == a);
        assert(first.contains(a));
        let at = choose|at: int| 0 <= at < second.len() && second[at] == a;
        let b = second.last();
        assert(second[second.len() - 1] == b);
        assert(second.contains(b));
        assert(first.contains(b));
        let bt = choose|bt: int| 0 <= bt < first.len() && first[bt] == b;
        assert(a == b) by {
            if at < second.len() - 1 {
                assert(operation_rank(second[at]) < operation_rank(second[second.len() - 1]));
                if bt < first.len() - 1 {
                    assert(operation_rank(first[bt]) < operation_rank(first[first.len() - 1]));
                }
            }
        }
        let shorter = first.drop_last();
        let other = second.drop_last();
        assert forall|operation: RuntimeOperation|
            #![trigger shorter.contains(operation)]
            shorter.contains(operation) <==> other.contains(operation) by {
            if shorter.contains(operation) {
                let k = choose|k: int| 0 <= k < shorter.len() && shorter[k] == operation;
                assert(first[k] == operation);
                assert(first.contains(operation));
                assert(operation_rank(first[k]) < operation_rank(first[first.len() - 1]));
                let m = choose|m: int| 0 <= m < second.len() && second[m] == operation;
                assert(m < second.len() - 1);
                assert(other[m] == operation);
            }
            if other.contains(operation) {
                let k = choose|k: int| 0 <= k < other.len() && other[k] == operation;
                assert(second[k] == operation);
                assert(second.contains(operation));
                assert(first.contains(operation));
                assert(operation_rank(second[k]) < operation_rank(second[second.len() - 1]));
                let m = choose|m: int| 0 <= m < first.len() && first[m] == operation;
                assert(m < first.len() - 1);
                assert(shorter[m] == operation);
            }
        }
        assert forall|i: int, j: int| 0 <= i < j < shorter.len() implies operation_rank(
            #[trigger] shorter[i],
        ) < operation_rank(#[trigger] shorter[j]) by {
            assert(operation_rank(first[i]) < operation_rank(first[j]));
        }
        assert forall|i: int, j: int| 0 <= i < j < other.len() implies operation_rank(
            #[trigger] other[i],
        ) < operation_rank(#[trigger] other[j]) by {
            assert(operation_rank(second[i]) < operation_rank(second[j]));
        }
        same_members_same_inventory(shorter, other);
        assert(first =~= shorter.push(a));
        assert(second =~= other.push(a));
    }
}

/// A host service with an agent driver advertises twenty-three operations.
pub proof fn advertised_operations_are_counted(inventory: Seq<RuntimeOperation>)
    requires
        is_inventory_of(inventory, agent_operation_list() + service_operation_list()),
    ensures
        inventory.len() == 23,
{
    let expected = agent_operation_list() + service_operation_list();
    let listed: Seq<RuntimeOperation> = seq![
        RuntimeOperation::Features,
        RuntimeOperation::Create,
        RuntimeOperation::State,
        RuntimeOperation::List,
        RuntimeOperation::Start,
        RuntimeOperation::Kill,
        RuntimeOperation::Delete,
        RuntimeOperation::Wait,
        RuntimeOperation::Exec,
        RuntimeOperation::SignalProcess,
        RuntimeOperation::WaitProcess,
        RuntimeOperation::ReadOutput,
        RuntimeOperation::WriteStdin,
        RuntimeOperation::CloseStdin,
        RuntimeOperation::Resize,
        RuntimeOperation::Pause,
        RuntimeOperation::Resume,
        RuntimeOperation::Processes,
        RuntimeOperation::Update,
        RuntimeOperation::Stats,
        RuntimeOperation::File,
        RuntimeOperation::Filesystem,
        RuntimeOperation::Events,
    ];
    assert forall|i: int| 0 <= i < 23 implies operation_rank(#[trigger] listed[i]) == i by {
        assert(operation_rank(listed[0]) == 0);
        assert(operation_rank(listed[1]) == 1);
        assert(operation_rank(listed[2]) == 2);
        assert(operation_rank(listed[3]) == 3);
        assert(operation_rank(listed[4]) == 4);
        assert(operation_rank(listed[5]) == 5);
        assert(operation_rank(listed[6]) == 6);
        assert(operation_rank(listed[7]) == 7);
        assert(operation_rank(listed[8]) == 8);
        assert(operation_rank(listed[9]) == 9);
        assert(operation_rank(listed[10]) == 10);
        assert(operation_rank(listed[11]) == 11);
        assert(operation_rank(listed[12]) == 12);
        assert(operation_rank(listed[13]) == 13);
        assert(operation_rank(listed[14]) == 14);
        assert(operation_rank(listed[15]) == 15);
        assert(operation_rank(listed[16]) == 16);
        assert(operation_rank(listed[17]) == 17);
        assert(operation_rank(listed[18]) == 18);
        assert(operation_rank(listed[19]) == 19);
        assert(operation_rank(listed[20]) == 20);
        assert(operation_rank(listed[21]) == 21);
        assert(operation_rank(listed[22]) == 22);
    }
    assert(is_inventory_of(listed, expected)) by {
        assert forall|operation: RuntimeOperation|
            #![trigger listed.contains(operation)]
            listed.contains(operation) <==> expected.contains(operation) by {
            assert(listed[1] == RuntimeOperation::Create && expected[0]
                == RuntimeOperation::Create);
            assert(listed[2] == RuntimeOperation::State && expected[1]
                == RuntimeOperation::State);
            assert(listed[4] == RuntimeOperation::Start && expected[2]
                == RuntimeOperation::Start);
            assert(listed[5] == RuntimeOperation::Kill && expected[3]
                == RuntimeOperation::Kill);
            assert(listed[6] == RuntimeOperation::Delete && expected[4]
                == RuntimeOperation::Delete);
            assert(listed[7] == RuntimeOperation::Wait && expected[5]
                == RuntimeOperation::Wait);
            assert(listed[8] == RuntimeOperation::Exec && expected[6]
                == RuntimeOperation::Exec);
            assert(listed[9] == RuntimeOperation::SignalProcess && expected[7]
                == RuntimeOperation::SignalProcess);
            assert(listed[10] == RuntimeOperation::WaitProcess && expected[8]
                == RuntimeOperation::WaitProcess);
            assert(listed[11] == RuntimeOperation::ReadOutput && expected[9]
                == RuntimeOperation::ReadOutput);
            assert(listed[12] == RuntimeOperation::WriteStdin && expected[10]
                == RuntimeOperation::WriteStdin);
            assert(listed[13] == RuntimeOperation::CloseStdin && expected[11]
                == RuntimeOperation::CloseStdin);
            assert(listed[14] == RuntimeOperation::Resize && expected[12]
                == RuntimeOperation::Resize);
            assert(listed[15] == RuntimeOperation::Pause && expected[13]
                == RuntimeOperation::Pause);
            assert(listed[16] == RuntimeOperation::Resume && expected[14]
                == RuntimeOperation::Resume);
            assert(listed[17] == RuntimeOperation::Processes && expected[15]
                == RuntimeOperation::Processes);
            assert(listed[18] == RuntimeOperation::Update && expected[16]
                == RuntimeOperation::Update);
            assert(listed[19] == RuntimeOperation::Stats && expected[17]
                == RuntimeOperation::Stats);
            assert(listed[20] == RuntimeOperation::File && expected[18]
                == RuntimeOperation::File);
            assert(listed[21] == RuntimeOperation::Filesystem && expected[19]
                == RuntimeOperation::Filesystem);
            assert(listed[0] == RuntimeOperation::Features && expected[20]
                == RuntimeOperation::Features);
            assert(listed[3] == RuntimeOperation::List && expected[21]
                == RuntimeOperation::List);
            assert(listed[22] == RuntimeOperation::Events && expected[22]
                == RuntimeOperation::Events);
        }
    }
    inventories_are_unique(inventory, listed, expected);
}

/// An agent carries out every operation but those of the service and those on
/// checkpoints, and a service offers them all with its own.
pub proof fn operations_are_divided(operation: RuntimeOperation)
    ensures
        service_operation_list().contains(operation) <==> operation is Features || operation
            is List || operation is Events,
        agent_operation_list().contains(operation) <==> !(operation is Features || operation
            is List || operation is Events || operation is Checkpoint || operation is Restore),
{
    let agent = agent_operation_list();
    let service = service_operation_list();
    assert(service[0] is Features && service[1] is List && service[2] is Events);
    assert(agent[0] is Create && agent[1] is State && agent[2] is Start && agent[3] is Kill
        && agent[4] is Delete && agent[5] is Wait && agent[6] is Exec && agent[7] is SignalProcess
        && agent[8] is WaitProcess && agent[9] is ReadOutput && agent[10] is WriteStdin
        && agent[11] is CloseStdin && agent[12] is Resize && agent[13] is Pause && agent[14]
        is Resume && agent[15] is Processes && agent[16] is Update && agent[17] is Stats
        && agent[18] is File && agent[19] is Filesystem);
}

/// No two operations share a place in an inventory.
pub proof fn operations_have_places_of_their_own(first: RuntimeOperation, second: RuntimeOperation)
    requires
        operation_rank(first) == operation_rank(second),
    ensures
        first == second,
{
}

/// The operations of an agent are listed in the order of inventories.
pub proof fn agent_operations_are_in_order()
    ensures
        ordered(agent_operation_list()),
        agent_operation_list().len() == 20,
        ordered(service_operation_list()),
{
}

} // verus!
