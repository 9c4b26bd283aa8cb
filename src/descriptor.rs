use vstd::prelude::*;

verus! {

/// The shape of one value that crosses the boundary.
#[derive(PartialEq, Eq, Structural, Clone, Copy, Debug)]
pub enum TypeTag {
    Void,
    Bool,
    I32,
    I64,
    U64,
    Text,
    Bytes,
    /// The error type of an operation that cannot fail.
    Never,
}

/// One argument handed to an operation when it begins.
pub enum ArgValue {
    Bool(bool),
    I32(i32),
    I64(i64),
    U64(u64),
    Text(String),
    Bytes(Vec<u8>),
}

impl ArgValue {
    pub open spec fn tag_spec(&self) -> TypeTag {
        match self {
            ArgValue::Bool(_) => TypeTag::Bool,
            ArgValue::I32(_) => TypeTag::I32,
            ArgValue::I64(_) => TypeTag::I64,
            ArgValue::U64(_) => TypeTag::U64,
            ArgValue::Text(_) => TypeTag::Text,
            ArgValue::Bytes(_) => TypeTag::Bytes,
        }
    }

    /// The shape of this argument.
    pub fn tag(&self) -> (r: TypeTag)
        ensures
            r == self.tag_spec(),
    {
        match self {
            ArgValue::Bool(_) => TypeTag::Bool,
            ArgValue::I32(_) => TypeTag::I32,
            ArgValue::I64(_) => TypeTag::I64,
            ArgValue::U64(_) => TypeTag::U64,
            ArgValue::Text(_) => TypeTag::Text,
            ArgValue::Bytes(_) => TypeTag::Bytes,
        }
    }
}

/// The declared contract of one operation that crosses the boundary: its
/// identity, argument shapes, success type and error type.
pub struct TaskDescriptor {
    pub op: u64,
    pub args: Vec<TypeTag>,
    pub success: TypeTag,
    pub error: TypeTag,
}

/// Identity of the timer operation that sleeps for a number of seconds.
pub const SLEEP_OP: u64 = 1;

/// Two descriptors declare the same operation with the same types.
pub open spec fn same_signature(a: &TaskDescriptor, b: &TaskDescriptor) -> bool {
    &&& a.op == b.op
    &&& a.args@ == b.args@
    &&& a.success == b.success
    &&& a.error == b.error
}

/// The arguments have, one by one, the shapes that the descriptor declares.
pub open spec fn args_fit(d: &TaskDescriptor, args: Seq<ArgValue>) -> bool {
    &&& args.len() == d.args@.len()
    &&& forall|i: int| 0 <= i < args.len() ==> #[trigger] args[i].tag_spec() == d.args@[i]
}

/// An operation may begin: the descriptor used by the caller agrees with the
/// one that the producer declares, and the arguments fit it.
pub open spec fn contract_holds(d: &TaskDescriptor, declared: &TaskDescriptor, args: Seq<ArgValue>) -> bool {
    same_signature(d, declared) && args_fit(d, args)
}

impl TaskDescriptor {
    /// The descriptor of the timer operation: one `i32` argument (seconds),
    /// no success payload, and no error.
    pub fn sleep_descriptor() -> (d: TaskDescriptor)
        ensures
            d.op == SLEEP_OP,
            d.args@ == seq![TypeTag::I32],
            d.success == TypeTag::Void,
            d.error == TypeTag::Never,
    {
        let args = vec![TypeTag::I32];
        TaskDescriptor { op: SLEEP_OP, args, success: TypeTag::Void, error: TypeTag::Never }
    }

    pub fn same_signature(&self, other: &TaskDescriptor) -> (r: bool)
        ensures
            r == same_signature(self, other),
    {
        if self.op != other.op || self.success != other.success || self.error != other.error {
            return false;
        }
        if self.args.len() != other.args.len() {
            return false;
        }
        let mut i: usize = 0;
        while i < self.args.len()
            invariant
                self.args@.len() == other.args@.len(),
                0 <= i <= self.args@.len(),
                forall|j: int| 0 <= j < i ==> self.args@[j] == other.args@[j],
            decreases self.args@.len() - i,
        {
            if self.args[i] != other.args[i] {
                return false;
            }
            i = i + 1;
        }
        assert(self.args@ =~= other.args@);
        true
    }

    /// Whether `args` have, one by one, the shapes this descriptor declares.
    pub fn accepts_args(&self, args: &Vec<ArgValue>) -> (r: bool)
        ensures
            r == args_fit(self, args@),
    {
        if args.len() != self.args.len() {
            return false;
        }
        let mut i: usize = 0;
        while i < args.len()
            invariant
                args@.len() == self.args@.len(),
                0 <= i <= args@.len(),
                forall|j: int| 0 <= j < i ==> #[trigger] args@[j].tag_spec() == self.args@[j],
            decreases args@.len() - i,
        {
            if args[i].tag() != self.args[i] {
                return false;
            }
            i = i + 1;
        }
        true
    }
}

} // verus!
