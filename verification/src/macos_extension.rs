//! Decisions of the macOS camera-extension lifecycle: which build replaces
//! which, how the registry's properties classify the install, and how request
//! events end a query or a lifecycle request.
use vstd::prelude::*;
use crate::text::{append_chars, chars_of, concat2, decimal, decimal_digits, owned};

verus! {

/// Bundle identifier of the camera extension inside the host app.
pub const CAMERA_EXTENSION_BUNDLE_ID: &'static str = "com.haoxincode.picoo-camera.camera-extension";

/// How long a lifecycle request may wait for the user's approval, in seconds.
pub const LIFECYCLE_TIMEOUT_SECS: u64 = 600;

/// How long a status query may take, in seconds.
pub const QUERY_TIMEOUT_SECS: u64 = 15;

#[derive(Debug, Clone, Copy, PartialEq, Eq, Structural)]
pub enum InstalledState {
    Missing,
    Bundled,
    AwaitingApproval,
    Active,
    Uninstalling,
}

#[derive(Debug, Clone, Copy, PartialEq, Eq, Structural)]
pub enum LifecycleOutcome {
    Completed,
    RestartRequired,
}

/// Value of a decimal digit character.
pub open spec fn digit_value(c: char) -> int {
    (c as int) - ('0' as int)
}

pub open spec fn is_digit(c: char) -> bool {
    '0' <= c && c <= '9'
}

/// Value of a run of decimal digits.
pub open spec fn digits_value(s: Seq<char>) -> nat
    decreases s.len(),
{
    if s.len() == 0 {
        0
    } else {
        (digits_value(s.drop_last()) * 10 + digit_value(s.last())) as nat
    }
}

/// `u64::from_str`: an optional `+`, then one or more decimal digits whose
/// value fits in 64 bits.
pub open spec fn parse_u64(s: Seq<char>) -> Option<nat> {
    let digits = unsigned_digits(s);
    if digits.len() > 0 && all_digits(digits) && digits_value(digits) <= u64::MAX {
        Some(digits_value(digits))
    } else {
        None
    }
}

/// `s` without one leading `+`.
pub open spec fn unsigned_digits(s: Seq<char>) -> Seq<char> {
    if s.len() > 0 && s[0] == '+' { s.drop_first() } else { s }
}

pub open spec fn all_digits(s: Seq<char>) -> bool {
    forall|i: int| 0 <= i < s.len() ==> is_digit(#[trigger] s[i])
}

/// Natural values of a list of 64-bit numbers.
pub open spec fn nat_values(v: Seq<u64>) -> Seq<nat> {
    v.map_values(|x: u64| x as nat)
}

/// `s` split at every `.` (`str::split('.')`), read left to right: a dot
/// opens a new, empty component; any other character extends the last one.
pub open spec fn split_dots(s: Seq<char>) -> Seq<Seq<char>>
    decreases s.len(),
{
    if s.len() == 0 {
        seq![Seq::<char>::empty()]
    } else {
        let prev = split_dots(s.drop_last());
        if s.last() == '.' {
            prev.push(Seq::<char>::empty())
        } else {
            prev.drop_last().push(prev.last().push(s.last()))
        }
    }
}

pub open spec fn component_value(p: Seq<char>) -> nat {
    match parse_u64(p) {
        Some(v) => v,
        None => 0nat,
    }
}

/// Numeric value of each dot-separated component; a component that is not a
/// number counts as zero.
pub open spec fn version_parts(s: Seq<char>) -> Seq<nat> {
    split_dots(s).map_values(|p: Seq<char>| component_value(p))
}

pub open spec fn part_at(parts: Seq<nat>, i: int) -> nat {
    if 0 <= i < parts.len() { parts[i] } else { 0 }
}

/// Result of comparing two build numbers.
#[derive(Debug, Clone, Copy, PartialEq, Eq, Structural)]
pub enum VersionOrder {
    Older,
    Same,
    Newer,
}

/// Compares two component lists from index `i`, a missing component
/// counting as zero.
pub open spec fn compare_parts_from(a: Seq<nat>, b: Seq<nat>, i: int) -> VersionOrder
    decreases (if a.len() > b.len() { a.len() } else { b.len() }) - i,
{
    if i >= a.len() && i >= b.len() {
        VersionOrder::Same
    } else if part_at(a, i) < part_at(b, i) {
        VersionOrder::Older
    } else if part_at(a, i) > part_at(b, i) {
        VersionOrder::Newer
    } else {
        compare_parts_from(a, b, i + 1)
    }
}

/// Build numbers compared component by component: `Older` when `left` is the
/// older build.
pub open spec fn version_order(left: Seq<char>, right: Seq<char>) -> VersionOrder {
    compare_parts_from(version_parts(left), version_parts(right), 0)
}

/// The opposite verdict.
pub open spec fn flipped(o: VersionOrder) -> VersionOrder {
    match o {
        VersionOrder::Older => VersionOrder::Newer,
        VersionOrder::Same => VersionOrder::Same,
        VersionOrder::Newer => VersionOrder::Older,
    }
}

proof fn lemma_compare_parts_antisymmetric(a: Seq<nat>, b: Seq<nat>, i: int)
    ensures
        compare_parts_from(a, b, i) == flipped(compare_parts_from(b, a, i)),
    decreases (if a.len() > b.len() { a.len() } else { b.len() }) - i,
{
    if !(i >= a.len() && i >= b.len()) && part_at(a, i) == part_at(b, i) {
        lemma_compare_parts_antisymmetric(a, b, i + 1);
    }
}

proof fn lemma_compare_parts_transitive(a: Seq<nat>, b: Seq<nat>, c: Seq<nat>, i: int)
    ensures
        compare_parts_from(a, b, i) == VersionOrder::Older && compare_parts_from(b, c, i) == VersionOrder::Older
            ==> compare_parts_from(a, c, i) == VersionOrder::Older,
        compare_parts_from(a, b, i) == VersionOrder::Same && compare_parts_from(b, c, i) == VersionOrder::Same
            ==> compare_parts_from(a, c, i) == VersionOrder::Same,
    decreases (if a.len() > b.len() { if a.len() > c.len() { a.len() } else { c.len() } } else { if b.len()
        > c.len() { b.len() } else { c.len() } }) - i,
{
    if (i < a.len() || i < b.len() || i < c.len()) && part_at(a, i) == part_at(b, i) && part_at(b, i) == part_at(
        c,
        i,
    ) {
        lemma_compare_parts_transitive(a, b, c, i + 1);
    } else if i >= a.len() && i >= b.len() && i >= c.len() {
    } else {
        if i >= a.len() && i >= b.len() {
            assert(compare_parts_from(a, b, i) == VersionOrder::Same);
        }
        if i >= b.len() && i >= c.len() {
            assert(compare_parts_from(b, c, i) == VersionOrder::Same);
        }
    }
}

/// Swapping the two build numbers swaps `Older` and `Newer` and keeps
/// `Same`.
pub proof fn lemma_version_order_antisymmetric(left: Seq<char>, right: Seq<char>)
    ensures
        version_order(left, right) == flipped(version_order(right, left)),
{
    lemma_compare_parts_antisymmetric(version_parts(left), version_parts(right), 0);
}

/// The build-number order is transitive, for `Older` and for `Same`.
pub proof fn lemma_version_order_transitive(a: Seq<char>, b: Seq<char>, c: Seq<char>)
    ensures
        version_order(a, b) == VersionOrder::Older && version_order(b, c) == VersionOrder::Older
            ==> version_order(a, c) == VersionOrder::Older,
        version_order(a, b) == VersionOrder::Same && version_order(b, c) == VersionOrder::Same
            ==> version_order(a, c) == VersionOrder::Same,
{
    lemma_compare_parts_transitive(version_parts(a), version_parts(b), version_parts(c), 0);
}

fn parse_component(cs: &Vec<char>, from: usize, to: usize) -> (r: u64)
    requires
        from <= to <= cs@.len(),
    ensures
        r == component_value(cs@.subrange(from as int, to as int)),
{
    let ghost s = cs@.subrange(from as int, to as int);
    let mut start = from;
    if start < to && cs[start] == '+' {
        start = start + 1;
    }
    let ghost digits = cs@.subrange(start as int, to as int);
    assert(digits =~= unsigned_digits(s));
    if start == to {
        return 0;
    }
    let mut value: u64 = 0;
    let mut i = start;
    while i < to
        invariant
            start <= i <= to <= cs@.len(),
            digits == cs@.subrange(start as int, to as int),
            s == cs@.subrange(from as int, to as int),
            digits == unsigned_digits(s),
            forall|k: int| start <= k < i ==> is_digit(#[trigger] cs@[k]),
            value == digits_value(cs@.subrange(start as int, i as int)),
        decreases to - i,
    {
        let c = cs[i];
        assert(cs@.subrange(start as int, i + 1).drop_last() =~= cs@.subrange(start as int, i as int));
        if !('0' <= c && c <= '9') {
            assert(!is_digit(digits[i - start]));
            assert(!all_digits(digits));
            return 0;
        }
        let d: u64 = (c as u64) - ('0' as u64);
        if value > (u64::MAX - d) / 10 {
            proof {
                let next = cs@.subrange(start as int, i + 1);
                assert(next.drop_last() =~= cs@.subrange(start as int, i as int));
                assert(next.last() == c);
                assert(digits_value(next) == value * 10 + d);
                assert(value * 10 + d > u64::MAX);
                if all_digits(digits) {
                    lemma_digits_value_grows(digits, (i - start + 1) as int);
                    assert(digits.take((i - start + 1) as int) =~= next);
                }
            }
            return 0;
        }
        value = value * 10 + d;
        i = i + 1;
    }
    assert(cs@.subrange(start as int, to as int) =~= cs@.subrange(start as int, i as int));
    assert(all_digits(digits));
    value
}

proof fn lemma_digits_value_grows(s: Seq<char>, k: int)
    requires
        0 <= k <= s.len(),
        all_digits(s),
    ensures
        digits_value(s.take(k)) <= digits_value(s),
    decreases s.len() - k,
{
    if k < s.len() {
        lemma_digits_value_grows(s, k + 1);
        assert(s.take(k + 1).drop_last() =~= s.take(k));
        assert(s.take(k + 1).last() == s[k]);
        assert(is_digit(s[k]));
    } else {
        assert(s.take(k) =~= s);
    }
}

/// Numeric components of a dotted build number.
pub fn version_components(s: &str) -> (r: Vec<u64>)
    ensures
        nat_values(r@) == version_parts(s@),
{
    let cs = chars_of(s);
    let mut out: Vec<u64> = Vec::new();
    let ghost mut segs: Seq<Seq<char>> = Seq::empty();
    let mut from: usize = 0;
    let mut i: usize = 0;
    assert(cs@.take(0) =~= Seq::<char>::empty());
    assert(segs.push(cs@.subrange(0, 0)) =~= seq![Seq::<char>::empty()]);
    while i < cs.len()
        invariant
            from <= i <= cs@.len(),
            cs@ == s@,
            split_dots(cs@.take(i as int)) == segs.push(cs@.subrange(from as int, i as int)),
            nat_values(out@) == segs.map_values(|p: Seq<char>| component_value(p)),
        decreases cs@.len() - i,
    {
        assert(cs@.take(i + 1).drop_last() =~= cs@.take(i as int));
        assert(cs@.take(i + 1).last() == cs@[i as int]);
        if cs[i] == '.' {
            let v = parse_component(&cs, from, i);
            proof {
                assert(nat_values(out@.push(v)) =~= nat_values(out@).push(v as nat));
                assert(segs.push(cs@.subrange(from as int, i as int)).map_values(|p: Seq<char>| component_value(p))
                    =~= segs.map_values(|p: Seq<char>| component_value(p)).push(component_value(cs@.subrange(from as int, i as int))));
                segs = segs.push(cs@.subrange(from as int, i as int));
                assert(cs@.subrange(i + 1, i + 1) =~= Seq::<char>::empty());
            }
            out.push(v);
            from = i + 1;
        } else {
            proof {
                let prev = segs.push(cs@.subrange(from as int, i as int));
                assert(prev.drop_last() =~= segs);
                assert(cs@.subrange(from as int, i + 1) =~= cs@.subrange(from as int, i as int).push(cs@[i as int]));
            }
        }
        i = i + 1;
    }
    let v = parse_component(&cs, from, cs.len());
    proof {
        assert(cs@.take(cs@.len() as int) =~= cs@);
        assert(nat_values(out@.push(v)) =~= nat_values(out@).push(v as nat));
        assert(segs.push(cs@.subrange(from as int, i as int)).map_values(|p: Seq<char>| component_value(p))
            =~= segs.map_values(|p: Seq<char>| component_value(p)).push(component_value(cs@.subrange(from as int, i as int))));
    }
    out.push(v);
    out
}

/// Compares two dotted build numbers component by component, treating a
/// missing or non-numeric component as zero.
pub fn compare_versions(left: &str, right: &str) -> (r: VersionOrder)
    ensures
        r == version_order(left@, right@),
{
    let a = version_components(left);
    let b = version_components(right);
    let ghost pa = nat_values(a@);
    let ghost pb = nat_values(b@);
    let mut i: usize = 0;
    while i < a.len() || i < b.len()
        invariant
            pa == nat_values(a@),
            pb == nat_values(b@),
            pa == version_parts(left@),
            pb == version_parts(right@),
            compare_parts_from(pa, pb, 0) == compare_parts_from(pa, pb, i as int),
        decreases (if a@.len() > b@.len() { a@.len() } else { b@.len() }) - i,
    {
        let x: u64 = if i < a.len() { a[i] } else { 0 };
        let y: u64 = if i < b.len() { b[i] } else { 0 };
        assert(x == part_at(pa, i as int));
        assert(y == part_at(pb, i as int));
        assert(pa.len() == a@.len() && pb.len() == b@.len());
        if x < y {
            assert(compare_parts_from(pa, pb, i as int) == VersionOrder::Older);
            return VersionOrder::Older;
        }
        if x > y {
            assert(compare_parts_from(pa, pb, i as int) == VersionOrder::Newer);
            return VersionOrder::Newer;
        }
        i = i + 1;
    }
    VersionOrder::Same
}

/// Flags of one `OSSystemExtensionProperties` entry returned by the registry.
#[derive(Debug, Clone, Copy, PartialEq, Eq, Structural)]
pub struct ExtensionProperties {
    pub enabled: bool,
    pub awaiting_user_approval: bool,
    pub uninstalling: bool,
}

/// Install state from the registry entries, read in order: an enabled entry
/// makes the extension active; otherwise an entry awaiting approval wins over
/// an uninstalling one, which wins over a merely bundled one.
pub open spec fn classify_from(props: Seq<ExtensionProperties>, state: InstalledState) -> InstalledState
    decreases props.len(),
{
    if props.len() == 0 {
        state
    } else {
        let p = props[0];
        if p.enabled {
            InstalledState::Active
        } else {
            let next = if p.awaiting_user_approval {
                InstalledState::AwaitingApproval
            } else if p.uninstalling && state == InstalledState::Missing {
                InstalledState::Uninstalling
            } else if state == InstalledState::Missing {
                InstalledState::Bundled
            } else {
                state
            };
            classify_from(props.drop_first(), next)
        }
    }
}

/// Classifies the registry's entries for the camera extension.
pub fn classify_properties(properties: &[ExtensionProperties]) -> (r: InstalledState)
    ensures
        r == classify_from(properties@, InstalledState::Missing),
{
    let mut state = InstalledState::Missing;
    let mut i: usize = 0;
    assert(properties@.skip(0) =~= properties@);
    while i < properties.len()
        invariant
            i <= properties@.len(),
            classify_from(properties@, InstalledState::Missing) == classify_from(
                properties@.skip(i as int),
                state,
            ),
        decreases properties@.len() - i,
    {
        let p = properties[i];
        assert(properties@.skip(i as int)[0] == p);
        assert(properties@.skip(i as int).drop_first() =~= properties@.skip(i + 1));
        if p.enabled {
            return InstalledState::Active;
        }
        if p.awaiting_user_approval {
            state = InstalledState::AwaitingApproval;
        } else if p.uninstalling && state == InstalledState::Missing {
            state = InstalledState::Uninstalling;
        } else if state == InstalledState::Missing {
            state = InstalledState::Bundled;
        }
        i = i + 1;
    }
    assert(properties@.skip(i as int) =~= Seq::<ExtensionProperties>::empty());
    state
}

/// What a pending system-extension request reported.
#[derive(Debug, Clone, PartialEq, Eq)]
pub enum ExtensionRequestEvent {
    NeedsUserApproval,
    /// `request:didFinishWithResult:` with the raw result code.
    Finished(i64),
    Failed(String),
    Properties(InstalledState),
    /// No event arrived within the request's time limit.
    TimedOut,
    /// The delegate went away without a terminal event.
    Disconnected,
}

/// Raw `OSSystemExtensionRequestResult` codes.
pub const REQUEST_RESULT_COMPLETED: i64 = 0;
pub const REQUEST_RESULT_WILL_COMPLETE_AFTER_REBOOT: i64 = 1;

/// Decimal text of a signed number.
pub open spec fn signed_decimal(v: int) -> Seq<char> {
    if v < 0 {
        seq!['-'] + decimal_digits((-v) as nat)
    } else {
        decimal_digits(v as nat)
    }
}

fn signed_decimal_text(v: i64) -> (r: Vec<char>)
    ensures
        r@ == signed_decimal(v as int),
{
    if v < 0 {
        let magnitude: u64 = if v == i64::MIN { 9_223_372_036_854_775_808u64 } else { (-v) as u64 };
        let digits = decimal(magnitude);
        let mut out: Vec<char> = Vec::new();
        out.push('-');
        let mut i: usize = 0;
        while i < digits.len()
            invariant
                i <= digits@.len(),
                out@ == seq!['-'] + digits@.take(i as int),
            decreases digits@.len() - i,
        {
            out.push(digits[i]);
            assert(digits@.take(i + 1) =~= digits@.take(i as int).push(digits@[i as int]));
            i = i + 1;
        }
        assert(digits@.take(digits@.len() as int) =~= digits@);
        out
    } else {
        decimal(v as u64)
    }
}

/// The outcome of a lifecycle (activation or deactivation) request after one
/// event: `None` while the request stays pending (the user still has to
/// approve it), otherwise how it ended.
pub fn lifecycle_step(event: ExtensionRequestEvent) -> (r: Option<Result<LifecycleOutcome, String>>)
    ensures
        match r {
            None => lifecycle_decision(event) is None,
            Some(res) => lifecycle_decision(event) == Some(outcome_view(res)),
        },
        event is NeedsUserApproval <==> r is None,
        event == ExtensionRequestEvent::Finished(REQUEST_RESULT_COMPLETED) ==> r == Some(
            Ok::<LifecycleOutcome, String>(LifecycleOutcome::Completed),
        ),
        event == ExtensionRequestEvent::Finished(REQUEST_RESULT_WILL_COMPLETE_AFTER_REBOOT) ==> r
            == Some(Ok::<LifecycleOutcome, String>(LifecycleOutcome::RestartRequired)),
        event matches ExtensionRequestEvent::Finished(code) ==> (code != REQUEST_RESULT_COMPLETED
            && code != REQUEST_RESULT_WILL_COMPLETE_AFTER_REBOOT ==> (r matches Some(Err(m)) && m@
            == "未知的系统扩展结果："@ + signed_decimal(code as int))),
        event matches ExtensionRequestEvent::Failed(message) ==> (r matches Some(Err(m)) && m@
            == message@),
        event is Properties ==> (r matches Some(Err(m)) && m@ == "系统扩展生命周期请求返回了状态查询结果"@),
        event is TimedOut ==> (r matches Some(Err(m)) && m@
            == "等待 Camera Extension 系统批准超时，请在系统设置中批准后重试"@),
        event is Disconnected ==> (r matches Some(Err(m)) && m@ == "Camera Extension 系统请求意外结束"@),
{
    match event {
        ExtensionRequestEvent::NeedsUserApproval => None,
        ExtensionRequestEvent::Finished(code) => {
            if code == REQUEST_RESULT_COMPLETED {
                Some(Ok(LifecycleOutcome::Completed))
            } else if code == REQUEST_RESULT_WILL_COMPLETE_AFTER_REBOOT {
                Some(Ok(LifecycleOutcome::RestartRequired))
            } else {
                let mut m = owned("未知的系统扩展结果：");
                let digits = signed_decimal_text(code);
                append_chars(&mut m, digits.as_slice());
                Some(Err(m))
            }
        },
        ExtensionRequestEvent::Failed(message) => Some(Err(message)),
        ExtensionRequestEvent::Properties(_) => Some(Err(owned("系统扩展生命周期请求返回了状态查询结果"))),
        ExtensionRequestEvent::TimedOut => Some(
            Err(owned("等待 Camera Extension 系统批准超时，请在系统设置中批准后重试")),
        ),
        ExtensionRequestEvent::Disconnected => Some(Err(owned("Camera Extension 系统请求意外结束"))),
    }
}

/// Debug text of an unexpected query event.
pub open spec fn event_debug_text(event: ExtensionRequestEvent) -> Seq<char> {
    match event {
        ExtensionRequestEvent::NeedsUserApproval => "NeedsUserApproval"@,
        ExtensionRequestEvent::Finished(code) => "Finished(OSSystemExtensionRequestResult("@
            + signed_decimal(code as int) + "))"@,
        _ => Seq::empty(),
    }
}

/// The outcome of a status query from its first event.
pub fn query_outcome(event: ExtensionRequestEvent) -> (r: Result<InstalledState, String>)
    ensures
        event matches ExtensionRequestEvent::Properties(state) ==> r == Ok::<InstalledState, String>(state),
        event matches ExtensionRequestEvent::Failed(message) ==> (r matches Err(m) && m@ == message@),
        (event is NeedsUserApproval || event is Finished) ==> (r matches Err(m) && m@
            == "系统扩展状态请求返回了意外事件："@ + event_debug_text(event)),
        event is TimedOut ==> (r matches Err(m) && m@ == "检测 Camera Extension 超时"@),
        event is Disconnected ==> (r matches Err(m) && m@ == "Camera Extension 状态请求意外结束"@),
{
    match event {
        ExtensionRequestEvent::Properties(state) => Ok(state),
        ExtensionRequestEvent::Failed(message) => Err(message),
        ExtensionRequestEvent::NeedsUserApproval => Err(
            concat2("系统扩展状态请求返回了意外事件：", "NeedsUserApproval"),
        ),
        ExtensionRequestEvent::Finished(code) => {
            let mut m = concat2("系统扩展状态请求返回了意外事件：", "Finished(OSSystemExtensionRequestResult(");
            let digits = signed_decimal_text(code);
            append_chars(&mut m, digits.as_slice());
            m.append("))");
            Err(m)
        },
        ExtensionRequestEvent::TimedOut => Err(owned("检测 Camera Extension 超时")),
        ExtensionRequestEvent::Disconnected => Err(owned("Camera Extension 状态请求意外结束")),
    }
}

/// One component of an executable path (`std::path::Component`).
#[derive(Debug, Clone, PartialEq, Eq)]
pub enum PathComponent {
    RootDir,
    CurDir,
    ParentDir,
    Normal(String),
}

/// The executable lies under `/Applications` (component-wise, as
/// `Path::starts_with` compares).
pub open spec fn under_applications(components: Seq<PathComponent>) -> bool {
    components.len() >= 2 && components[0] is RootDir && (components[1] matches PathComponent::Normal(n)
        && n@ == "Applications"@)
}

/// macOS activates camera extensions only for apps inside `/Applications`.
pub fn ensure_activation_location(executable: &[PathComponent]) -> (r: Result<(), String>)
    ensures
        under_applications(executable@) <==> r is Ok,
        r matches Err(m) ==> m@
            == "macOS 只允许位于“应用程序”文件夹中的 App 激活 Camera Extension。请先将 Picoo Camera.app 移到 /Applications 后重新打开。"@,
{
    if executable.len() >= 2 {
        let root = match &executable[0] {
            PathComponent::RootDir => true,
            _ => false,
        };
        if root {
            if let PathComponent::Normal(name) = &executable[1] {
                if *name == owned("Applications") {
                    return Ok(());
                }
            }
        }
    }
    Err(owned("macOS 只允许位于“应用程序”文件夹中的 App 激活 Camera Extension。请先将 Picoo Camera.app 移到 /Applications 后重新打开。"))
}


/// The lifecycle request to submit to the system.
#[derive(Debug, Clone, Copy, PartialEq, Eq, Structural)]
pub enum LifecycleRequest {
    Activation,
    Deactivation,
}

/// Activation of the camera extension: allowed only for an app inside
/// `/Applications`, after which an activation request is submitted.
pub fn activate(executable: &[PathComponent]) -> (r: Result<LifecycleRequest, String>)
    ensures
        under_applications(executable@) <==> r == Ok::<LifecycleRequest, String>(LifecycleRequest::Activation),
        r matches Err(m) ==> m@
            == "macOS 只允许位于“应用程序”文件夹中的 App 激活 Camera Extension。请先将 Picoo Camera.app 移到 /Applications 后重新打开。"@,
{
    match ensure_activation_location(executable) {
        Ok(()) => Ok(LifecycleRequest::Activation),
        Err(e) => Err(e),
    }
}

/// Deactivation of the camera extension, under the same location rule.
pub fn deactivate(executable: &[PathComponent]) -> (r: Result<LifecycleRequest, String>)
    ensures
        under_applications(executable@) <==> r == Ok::<LifecycleRequest, String>(LifecycleRequest::Deactivation),
        r matches Err(m) ==> m@
            == "macOS 只允许位于“应用程序”文件夹中的 App 激活 Camera Extension。请先将 Picoo Camera.app 移到 /Applications 后重新打开。"@,
{
    match ensure_activation_location(executable) {
        Ok(()) => Ok(LifecycleRequest::Deactivation),
        Err(e) => Err(e),
    }
}

/// [`lifecycle_step`] with its texts as character sequences.
pub open spec fn lifecycle_decision(event: ExtensionRequestEvent) -> Option<Result<LifecycleOutcome, Seq<char>>> {
    match event {
        ExtensionRequestEvent::NeedsUserApproval => None,
        ExtensionRequestEvent::Finished(code) => if code == REQUEST_RESULT_COMPLETED {
            Some(Ok(LifecycleOutcome::Completed))
        } else if code == REQUEST_RESULT_WILL_COMPLETE_AFTER_REBOOT {
            Some(Ok(LifecycleOutcome::RestartRequired))
        } else {
            Some(Err("未知的系统扩展结果："@ + signed_decimal(code as int)))
        },
        ExtensionRequestEvent::Failed(message) => Some(Err(message@)),
        ExtensionRequestEvent::Properties(_) => Some(Err("系统扩展生命周期请求返回了状态查询结果"@)),
        ExtensionRequestEvent::TimedOut => Some(Err("等待 Camera Extension 系统批准超时，请在系统设置中批准后重试"@)),
        ExtensionRequestEvent::Disconnected => Some(Err("Camera Extension 系统请求意外结束"@)),
    }
}

pub open spec fn outcome_view(r: Result<LifecycleOutcome, String>) -> Result<LifecycleOutcome, Seq<char>> {
    match r {
        Ok(o) => Ok(o),
        Err(m) => Err(m@),
    }
}

/// The end of a lifecycle request from the events it delivered, in order:
/// approval prompts keep it waiting, the first other event decides, and a
/// stream that ends undecided means the request went away.
pub open spec fn lifecycle_result(events: Seq<ExtensionRequestEvent>) -> Result<LifecycleOutcome, Seq<char>>
    decreases events.len(),
{
    if events.len() == 0 {
        Err("Camera Extension 系统请求意外结束"@)
    } else {
        match lifecycle_decision(events[0]) {
            Some(d) => d,
            None => lifecycle_result(events.drop_first()),
        }
    }
}

fn copy_event(e: &ExtensionRequestEvent) -> (r: ExtensionRequestEvent)
    ensures
        r == *e,
{
    match e {
        ExtensionRequestEvent::NeedsUserApproval => ExtensionRequestEvent::NeedsUserApproval,
        ExtensionRequestEvent::Finished(code) => ExtensionRequestEvent::Finished(*code),
        ExtensionRequestEvent::Failed(m) => ExtensionRequestEvent::Failed(m.clone()),
        ExtensionRequestEvent::Properties(state) => ExtensionRequestEvent::Properties(*state),
        ExtensionRequestEvent::TimedOut => ExtensionRequestEvent::TimedOut,
        ExtensionRequestEvent::Disconnected => ExtensionRequestEvent::Disconnected,
    }
}

/// Wait for a lifecycle request to end; see [`lifecycle_result`].
pub fn wait_for_lifecycle(events: &[ExtensionRequestEvent]) -> (r: Result<LifecycleOutcome, String>)
    ensures
        outcome_view(r) == lifecycle_result(events@),
{
    let mut i: usize = 0;
    assert(events@.skip(0) =~= events@);
    while i < events.len()
        invariant
            i <= events@.len(),
            lifecycle_result(events@.skip(i as int)) == lifecycle_result(events@),
        decreases events@.len() - i,
    {
        assert(events@.skip(i as int).drop_first() =~= events@.skip(i + 1));
        assert(events@.skip(i as int)[0] == events@[i as int]);
        let step = lifecycle_step(copy_event(&events[i]));
        match step {
            Some(result) => {
                return result;
            },
            None => {},
        }
        i = i + 1;
    }
    assert(events@.skip(i as int) =~= Seq::<ExtensionRequestEvent>::empty());
    Err(owned("Camera Extension 系统请求意外结束"))
}
} // verus!
