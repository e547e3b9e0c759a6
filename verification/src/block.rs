//! One decoded block: its producer and its transactions, each with the
//! action traces and the table mutations it recorded, in execution order.

use vstd::prelude::*;

verus! {

/// A contract action: the contract, the action's name and its payload.
#[derive(Clone, Debug, PartialEq, Eq)]
pub struct Action {
    pub account: String,
    pub name: String,
    pub json_data: String,
}

pub struct ActionView {
    pub account: Seq<char>,
    pub name: Seq<char>,
    pub json_data: Seq<char>,
}

impl View for Action {
    type V = ActionView;

    open spec fn view(&self) -> ActionView {
        ActionView { account: self.account@, name: self.name@, json_data: self.json_data@ }
    }
}

/// One execution of an action, as seen by the account `receiver`. The action
/// may be absent.
#[derive(Clone, Debug, PartialEq, Eq)]
pub struct ActionTrace {
    pub receiver: String,
    pub action: Option<Action>,
}

pub struct ActionTraceView {
    pub receiver: Seq<char>,
    pub action: Option<ActionView>,
}

impl View for ActionTrace {
    type V = ActionTraceView;

    open spec fn view(&self) -> ActionTraceView {
        ActionTraceView {
            receiver: self.receiver@,
            action: match self.action {
                Some(action) => Some(action@),
                None => None,
            },
        }
    }
}

impl ActionTraceView {
    /// The action, where the trace was recorded by the action's own contract
    /// and not by an account that was only notified of it.
    pub open spec fn authoritative(self) -> Option<ActionView> {
        match self.action {
            Some(action) => if self.receiver == action.account {
                Some(action)
            } else {
                None
            },
            None => None,
        }
    }
}

/// A change of one table row: the row's payload before and after.
#[derive(Clone, Debug, PartialEq, Eq)]
pub struct DbOp {
    pub code: String,
    pub table_name: String,
    pub scope: String,
    pub primary_key: String,
    pub old_data_json: String,
    pub new_data_json: String,
}

pub struct DbOpView {
    pub code: Seq<char>,
    pub table_name: Seq<char>,
    pub scope: Seq<char>,
    pub primary_key: Seq<char>,
    pub old_data_json: Seq<char>,
    pub new_data_json: Seq<char>,
}

impl View for DbOp {
    type V = DbOpView;

    open spec fn view(&self) -> DbOpView {
        DbOpView {
            code: self.code@,
            table_name: self.table_name@,
            scope: self.scope@,
            primary_key: self.primary_key@,
            old_data_json: self.old_data_json@,
            new_data_json: self.new_data_json@,
        }
    }
}

/// What one transaction recorded.
#[derive(Clone, Debug, PartialEq, Eq)]
pub struct TransactionTrace {
    pub action_traces: Vec<ActionTrace>,
    pub db_ops: Vec<DbOp>,
}

pub struct TransactionTraceView {
    pub action_traces: Seq<ActionTraceView>,
    pub db_ops: Seq<DbOpView>,
}

impl View for TransactionTrace {
    type V = TransactionTraceView;

    open spec fn view(&self) -> TransactionTraceView {
        TransactionTraceView {
            action_traces: self.action_traces@.map_values(|trace: ActionTrace| trace@),
            db_ops: self.db_ops@.map_values(|op: DbOp| op@),
        }
    }
}

/// A block.
#[derive(Clone, Debug, PartialEq, Eq)]
pub struct Block {
    pub producer: String,
    pub transaction_traces: Vec<TransactionTrace>,
}

pub struct BlockView {
    pub producer: Seq<char>,
    pub transaction_traces: Seq<TransactionTraceView>,
}

impl View for Block {
    type V = BlockView;

    open spec fn view(&self) -> BlockView {
        BlockView {
            producer: self.producer@,
            transaction_traces: self.transaction_traces@.map_values(
                |trx: TransactionTrace| trx@,
            ),
        }
    }
}

} // verus!
