//! Key identifiers: the keysyms of the ASCII range, one variant per code.
use vstd::prelude::*;

verus! {

/// Keysym of the left Shift key.
pub const LSHIFT: u32 = 0xFFE1;

/// Keysym of the left Control key.
pub const LCTRL: u32 = 0xFFE3;

/// A key of the ASCII range. The variants stand in ASCII order, so that the
/// discriminant of each is the keysym that the remote peer expects for it
/// (`KeyCode::A as u32 == 65`).
#[allow(non_camel_case_types)]
#[derive(Clone, Copy, Debug, PartialEq, Eq)]
pub enum KeyCode {
    NULL,
    SOH,
    STX,
    ETX,
    EOT,
    ENQ,
    ACK,
    BEL,
    BckSpc,
    HorTab,
    LineFeed,
    VerTab,
    FormFeed,
    CarrRet,
    ShiftOut,
    ShiftIn,
    DatLinkEsc,
    DevCont1,
    DevCont2,
    DevCont3,
    DevCont4,
    NoAck,
    SYN,
    ETB,
    CANCEL,
    EndMed,
    SUB,
    ESC,
    FileSep,
    GroupSep,
    RecSep,
    UnitSep,
    SPACE,
    ExcMrk,
    DblQuote,
    Pound,
    Dollar,
    Percent,
    And,
    Apo,
    LRBrace,
    RRBrace,
    /// Asterisk ('*')
    Ast,
    Plus,
    Comma,
    Minus,
    Period,
    FwdSlash,
    Key0,
    Key1,
    Key2,
    Key3,
    Key4,
    Key5,
    Key6,
    Key7,
    Key8,
    Key9,
    Colon,
    SColon,
    LThan,
    Equals,
    GThan,
    Question,
    At,
    A,
    B,
    C,
    D,
    E,
    F,
    G,
    H,
    I,
    J,
    K,
    L,
    M,
    N,
    O,
    P,
    Q,
    R,
    S,
    T,
    U,
    V,
    W,
    X,
    Y,
    Z,
    /// Left straight bracket ('[')
    LBracket,
    BckSlash,
    /// Right straight bracket (']')
    RBracket,
    Caret,
    UScore,
    /// Grave accent or backtick ('`')
    GraveAcc,
    a,
    b,
    c,
    d,
    e,
    f,
    g,
    h,
    i,
    j,
    k,
    l,
    m,
    n,
    o,
    p,
    q,
    r,
    s,
    t,
    u,
    v,
    w,
    x,
    y,
    z,
    LCrlBrace,
    Pipe,
    RCrlBrace,
    /// Tilde ('~')
    Circumflex,
    DEL,
}

} // verus!
