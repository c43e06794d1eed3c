use vstd::prelude::*;

use crate::constants::MAX_MESSAGE_SIZE;

verus! {

/// Identifier of a user row.
pub type UserId = i64;

/// Identifier of an item row.
pub type ItemId = i64;

/// An amount of in-game money.
pub type Money = i64;

/// A request sent by a client.
#[derive(Debug, PartialEq, Eq)]
pub enum ClientMessage {
    Ping,
    Register(String, String),
    Identity(String, String),
    Work,
    GetBalance,
    GetMyItems,
    GetAvailableItems,
    BuyItem(ItemId),
    SellItem(ItemId),
}

/// The server's answer to one request.
#[derive(Debug, PartialEq, Eq)]
pub enum ServerResponse {
    Pong,
    Registered(String),
    RegistrationError(String),
    Authorized(String),
    AuthorizationError(String),
    Worked(Money),
    Balance(Money),
    BadWork(String),
    YouAreTooPoor,
    BadItem,
    ItemBought(ItemId),
    ItemSold(ItemId),
    ItemList(Vec<(ItemId, String, Money)>),
    YourItems(Vec<(String, String)>),
    Unauthorized,
    Error(String),
}

/// A server response with its text fields taken as character sequences.
pub ghost enum ResponseView {
    Pong,
    Registered(Seq<char>),
    RegistrationError(Seq<char>),
    Authorized(Seq<char>),
    AuthorizationError(Seq<char>),
    Worked(Money),
    Balance(Money),
    BadWork(Seq<char>),
    YouAreTooPoor,
    BadItem,
    ItemBought(ItemId),
    ItemSold(ItemId),
    ItemList(Seq<(ItemId, Seq<char>, Money)>),
    YourItems(Seq<(Seq<char>, Seq<char>)>),
    Unauthorized,
    Error(Seq<char>),
}

/// The catalogue rows `(id, name, price)` with their names as character sequences.
pub open spec fn item_list_view(items: Seq<(ItemId, String, Money)>) -> Seq<(ItemId, Seq<char>, Money)> {
    items.map_values(|row: (ItemId, String, Money)| (row.0, row.1@, row.2))
}

/// The owned items `(name, description)` as character sequences.
pub open spec fn owned_items_view(items: Seq<(String, String)>) -> Seq<(Seq<char>, Seq<char>)> {
    items.map_values(|row: (String, String)| (row.0@, row.1@))
}

impl View for ServerResponse {
    type V = ResponseView;

    open spec fn view(&self) -> ResponseView {
        match self {
            ServerResponse::Pong => ResponseView::Pong,
            ServerResponse::Registered(s) => ResponseView::Registered(s@),
            ServerResponse::RegistrationError(s) => ResponseView::RegistrationError(s@),
            ServerResponse::Authorized(s) => ResponseView::Authorized(s@),
            ServerResponse::AuthorizationError(s) => ResponseView::AuthorizationError(s@),
            ServerResponse::Worked(m) => ResponseView::Worked(*m),
            ServerResponse::Balance(m) => ResponseView::Balance(*m),
            ServerResponse::BadWork(s) => ResponseView::BadWork(s@),
            ServerResponse::YouAreTooPoor => ResponseView::YouAreTooPoor,
            ServerResponse::BadItem => ResponseView::BadItem,
            ServerResponse::ItemBought(i) => ResponseView::ItemBought(*i),
            ServerResponse::ItemSold(i) => ResponseView::ItemSold(*i),
            ServerResponse::ItemList(v) => ResponseView::ItemList(item_list_view(v@)),
            ServerResponse::YourItems(v) => ResponseView::YourItems(owned_items_view(v@)),
            ServerResponse::Unauthorized => ResponseView::Unauthorized,
            ServerResponse::Error(s) => ResponseView::Error(s@),
        }
    }
}

/// Why an incoming frame header was refused.
#[derive(Debug, PartialEq, Eq, Clone, Copy)]
pub enum FrameError {
    /// The announced payload is larger than `MAX_MESSAGE_SIZE`.
    TooLarge,
}

/// The four little-endian bytes of `n`, for `0 <= n < 2^32`.
pub open spec fn le_bytes_u32(n: int) -> Seq<u8> {
    seq![
        (n % 256) as u8,
        ((n / 256) % 256) as u8,
        ((n / 65536) % 256) as u8,
        ((n / 16777216) % 256) as u8,
    ]
}

/// The number that four little-endian bytes stand for.
pub open spec fn le_value_u32(b: Seq<u8>) -> int {
    b[0] + 256 * b[1] + 65536 * b[2] + 16777216 * b[3]
}

/// The size that a frame header announces for a payload of `len` bytes:
/// the length taken modulo 2^32, as the header has four bytes.
pub open spec fn announced_size(len: int) -> int {
    len % 0x1_0000_0000
}

/// The header that precedes a payload of `payload_len` bytes on a stream:
/// its length, cut to 32 bits, in little-endian order.
pub fn encode_frame_header(payload_len: usize) -> (header: [u8; 4])
    ensures
        header@ == le_bytes_u32(announced_size(payload_len as int)),
        header@[0] == (payload_len as int % 0x1_0000_0000) % 256,
        header@[1] == (payload_len as int % 0x1_0000_0000) / 256 % 256,
        header@[2] == (payload_len as int % 0x1_0000_0000) / 65536 % 256,
        header@[3] == (payload_len as int % 0x1_0000_0000) / 16777216 % 256,
{
    let wide: u64 = payload_len as u64;
    let size: u32 = (wide % 0x1_0000_0000u64) as u32;
    let b0: u8 = (size % 256) as u8;
    let b1: u8 = ((size / 256) % 256) as u8;
    let b2: u8 = ((size / 65536) % 256) as u8;
    let b3: u8 = ((size / 16777216) % 256) as u8;
    let header: [u8; 4] = [b0, b1, b2, b3];
    assert(header@ =~= le_bytes_u32(announced_size(payload_len as int)));
    header
}

/// Reads the payload size out of a received frame header; a size above
/// `MAX_MESSAGE_SIZE` is refused.
pub fn decode_frame_header(header: [u8; 4]) -> (r: Result<u32, FrameError>)
    ensures
        le_value_u32(header@) > MAX_MESSAGE_SIZE ==> r == Err::<u32, FrameError>(FrameError::TooLarge),
        le_value_u32(header@) <= MAX_MESSAGE_SIZE ==> r == Ok::<u32, FrameError>(le_value_u32(header@) as u32),
        header@[0] + 256 * header@[1] + 65536 * header@[2] + 16777216 * header@[3] > 2048
            ==> r == Err::<u32, FrameError>(FrameError::TooLarge),
        header@[0] + 256 * header@[1] + 65536 * header@[2] + 16777216 * header@[3] <= 2048
            ==> (r matches Ok(n) && n == header@[0] + 256 * header@[1] + 65536 * header@[2] + 16777216 * header@[3]),
{
    let size: u32 = header[0] as u32 + (header[1] as u32) * 256 + (header[2] as u32) * 65536
        + (header[3] as u32) * 16777216;
    if size > MAX_MESSAGE_SIZE {
        Err(FrameError::TooLarge)
    } else {
        Ok(size)
    }
}

/// A frame header gives back the length that it was made for: decoding the
/// header of a payload of `len` bytes (below 4 GiB) yields `len`, so the
/// header is accepted exactly when `len` is at most `MAX_MESSAGE_SIZE`.
pub proof fn law_frame_header_roundtrip(len: int)
    requires
        0 <= len < 0x1_0000_0000,
    ensures
        announced_size(len) == len,
        le_value_u32(le_bytes_u32(announced_size(len))) == len,
{
    let b0 = len % 256;
    let b1 = (len / 256) % 256;
    let b2 = (len / 65536) % 256;
    let b3 = (len / 16777216) % 256;
    assert(b0 + 256 * b1 + 65536 * b2 + 16777216 * b3 == len) by (nonlinear_arith)
        requires
            0 <= len < 0x1_0000_0000,
            b0 == len % 256,
            b1 == (len / 256) % 256,
            b2 == (len / 65536) % 256,
            b3 == (len / 16777216) % 256,
    ;
    assert(le_bytes_u32(len) =~= seq![b0 as u8, b1 as u8, b2 as u8, b3 as u8]);
}

/// Byte `k` of a frame header is digit `k` of the announced length in base
/// 256, lowest first, and the value read back from four bytes weighs byte
/// `k` by 256^k.
pub proof fn law_frame_header_digits(len: int, b: Seq<u8>)
    requires
        0 <= len,
        b.len() == 4,
    ensures
        le_bytes_u32(len)[0] == len % 256,
        le_bytes_u32(len)[1] == len / 256 % 256,
        le_bytes_u32(len)[2] == len / 65536 % 256,
        le_bytes_u32(len)[3] == len / 16777216 % 256,
        le_value_u32(b) == b[0] + 256 * (b[1] + 256 * (b[2] + 256 * b[3])),
{
}

} // verus!
