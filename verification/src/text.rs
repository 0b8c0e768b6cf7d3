//! Text that the endpoint builds: decimal numbers and the name of a service
//! safe point.
use vstd::prelude::*;
use vstd::string::*;

verus! {

/// The character of a decimal digit.
pub open spec fn digit(d: nat) -> char {
    seq!['0', '1', '2', '3', '4', '5', '6', '7', '8', '9'][d as int]
}

/// `n` in decimal, without leading zeros.
pub open spec fn decimal(n: nat) -> Seq<char>
    decreases n,
{
    if n < 10 {
        seq![digit(n)]
    } else {
        decimal(n / 10).push(digit(n % 10))
    }
}

/// The name under which the store `store_id` holds the safe point of `task`.
pub open spec fn safe_point_name(task: Seq<char>, store_id: nat) -> Seq<char> {
    "backup-stream-"@ + task + "-"@ + decimal(store_id)
}

fn digit_text(d: u64) -> (text: &'static str)
    requires
        d < 10,
    ensures
        text@ == seq![digit(d as nat)],
{
    proof {
        reveal_strlit("0");
        reveal_strlit("1");
        reveal_strlit("2");
        reveal_strlit("3");
        reveal_strlit("4");
        reveal_strlit("5");
        reveal_strlit("6");
        reveal_strlit("7");
        reveal_strlit("8");
        reveal_strlit("9");
    }
    match d {
        0 => "0",
        1 => "1",
        2 => "2",
        3 => "3",
        4 => "4",
        5 => "5",
        6 => "6",
        7 => "7",
        8 => "8",
        _ => "9",
    }
}

/// Appends `n` in decimal to `out`.
pub fn push_decimal(out: &mut String, n: u64)
    ensures
        final(out)@ == old(out)@ + decimal(n as nat),
    decreases n,
{
    if n >= 10 {
        push_decimal(out, n / 10);
    }
    out.append(digit_text(n % 10));
    assert(out@ == old(out)@ + decimal(n as nat));
}

/// The name under which the store `store_id` holds the safe point of `task`.
pub fn service_safe_point_id(task: &str, store_id: u64) -> (id: String)
    ensures
        id@ == safe_point_name(task@, store_id as nat),
{
    let mut id = "backup-stream-".to_owned();
    id.append(task);
    id.append("-");
    push_decimal(&mut id, store_id);
    id
}

proof fn lemma_digit_is_no_dash(d: nat)
    requires
        d < 10,
    ensures
        digit(d) != '-',
{
    assert(d == 0 || d == 1 || d == 2 || d == 3 || d == 4 || d == 5 || d == 6 || d == 7 || d == 8
        || d == 9);
}

proof fn lemma_digit_injective(a: nat, b: nat)
    requires
        a < 10,
        b < 10,
        digit(a) == digit(b),
    ensures
        a == b,
{
    assert(a == 0 || a == 1 || a == 2 || a == 3 || a == 4 || a == 5 || a == 6 || a == 7 || a == 8
        || a == 9);
    assert(b == 0 || b == 1 || b == 2 || b == 3 || b == 4 || b == 5 || b == 6 || b == 7 || b == 8
        || b == 9);
}

proof fn lemma_decimal_has_no_dash(n: nat)
    ensures
        decimal(n).len() > 0,
        forall|i: int| 0 <= i < decimal(n).len() ==> decimal(n)[i] != '-',
    decreases n,
{
    lemma_digit_is_no_dash(n % 10);
    if n >= 10 {
        lemma_decimal_has_no_dash(n / 10);
    }
}

/// Two numbers with the same decimal text are the same number.
pub proof fn law_decimal_is_injective(a: nat, b: nat)
    requires
        decimal(a) == decimal(b),
    ensures
        a == b,
    decreases a,
{
    lemma_decimal_has_no_dash(a / 10);
    lemma_decimal_has_no_dash(b / 10);
    let last = decimal(a).len() - 1;
    assert(decimal(a)[last] == digit(a % 10));
    assert(decimal(b)[last] == digit(b % 10));
    lemma_digit_injective(a % 10, b % 10);
    if a >= 10 {
        assert(decimal(a).len() > 1);
        assert(b >= 10);
        assert(decimal(a).drop_last() == decimal(a / 10));
        assert(decimal(b).drop_last() == decimal(b / 10));
        law_decimal_is_injective(a / 10, b / 10);
    } else {
        assert(decimal(a).len() == 1);
        assert(b < 10);
    }
}

/// No two pairs of a task and a store share a service safe point.
pub proof fn law_safe_point_names_are_distinct(
    task_a: Seq<char>,
    store_a: nat,
    task_b: Seq<char>,
    store_b: nat,
)
    requires
        safe_point_name(task_a, store_a) == safe_point_name(task_b, store_b),
    ensures
        task_a == task_b,
        store_a == store_b,
{
    let a = safe_point_name(task_a, store_a);
    let b = safe_point_name(task_b, store_b);
    let da = decimal(store_a);
    let db = decimal(store_b);
    let head = "backup-stream-"@;
    reveal_strlit("-");
    lemma_decimal_has_no_dash(store_a);
    lemma_decimal_has_no_dash(store_b);
    let dash_a = a.len() - da.len() - 1;
    let dash_b = b.len() - db.len() - 1;
    assert(a[dash_a] == '-');
    assert(b[dash_b] == '-');
    if da.len() < db.len() {
        assert(b[dash_a] == db[dash_a - dash_b - 1]);
    } else if db.len() < da.len() {
        assert(a[dash_b] == da[dash_b - dash_a - 1]);
    }
    assert(da.len() == db.len());
    assert(a.subrange(dash_a + 1, a.len() as int) == da);
    assert(b.subrange(dash_b + 1, b.len() as int) == db);
    law_decimal_is_injective(store_a, store_b);
    assert(a.subrange(head.len() as int, dash_a) == task_a);
    assert(b.subrange(head.len() as int, dash_b) == task_b);
}

/// The number that a text of decimal digits stands for.
pub open spec fn number(text: Seq<char>) -> int
    decreases text.len(),
{
    if text.len() == 0 {
        0
    } else {
        10 * number(text.drop_last()) + (text.last() as int - '0' as int)
    }
}

/// The decimal text of a number is made of digits, stands for that number, and
/// has no zeros that could be left out.
pub proof fn law_decimal_reads_back(n: nat)
    ensures
        number(decimal(n)) == n,
        decimal(n).len() > 0,
        forall|i: int| 0 <= i < decimal(n).len() ==> '0' <= #[trigger] decimal(n)[i] <= '9',
        decimal(n)[0] == '0' ==> n == 0 && decimal(n).len() == 1,
    decreases n,
{
    let d = (n % 10) as nat;
    assert(d == 0 || d == 1 || d == 2 || d == 3 || d == 4 || d == 5 || d == 6 || d == 7 || d == 8
        || d == 9);
    assert(digit(d) as int - '0' as int == d);
    if n >= 10 {
        law_decimal_reads_back(n / 10);
        assert(decimal(n).drop_last() =~= decimal(n / 10));
        assert(decimal(n)[0] == decimal(n / 10)[0]);
    } else {
        assert(decimal(n).drop_last() =~= Seq::empty());
        assert(number(decimal(n).drop_last()) == 0);
    }
}

/// The name of a service safe point says that it is one of a backup stream, and
/// names the task, then the store.
pub proof fn law_safe_point_is_named_after_task_and_store(task: Seq<char>, store_id: nat)
    ensures
        safe_point_name(task, store_id) == "backup-stream-"@ + task + "-"@ + decimal(store_id),
{
}

} // verus!
