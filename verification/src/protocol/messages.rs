use vstd::prelude::*;

use super::payload::GetDataOut;
use super::serialization::Base64Bytes;

verus! {

/// A request sent to the database service; `payload` holds the encoded
/// operation input.
#[derive(Debug, Clone, PartialEq, Eq)]
pub struct Message {
    pub message_id: usize,
    pub request: Request,
    pub payload: Base64Bytes,
}

/// The service's answer to a [`Message`] with the same `message_id`.
#[derive(Debug, Clone, PartialEq, Eq)]
pub struct Response {
    pub message_id: usize,
    pub request: Request,
    pub payload: Base64Bytes,
}

/// The operations the service knows.
#[derive(Debug, Clone, Copy, PartialEq, Eq, Structural)]
pub enum Request {
    CreateTable,
    ListTables,
    GetData,
    GetDataOrdered,
    InsertData,
    DropTable,
    EditColInRow,
    CheckTable,
    DeleteRow,
    SwapColumns,
    CreateIndex,
    CheckIndex,
    AddColumn,
    RemoveColumn,
    ExportDatabase,
    ExportTables,
    CreateTableFromExport,
    CopyTable,
    UniffiDontRenameMyEnums(bool),
}

/// A `GetData` answer taken apart: its id, the operation it answers and the rows.
#[derive(Debug, Clone)]
pub struct GetDataOutUnbuilt {
    pub message_id: u64,
    pub request: Request,
    pub get_data_out: GetDataOut,
}

/// The `GetData` message that carries the encoded input `payload` under
/// the id `message_id`.
pub fn get_data_message(message_id: u64, payload: Vec<u8>) -> (r: Message)
    ensures
        r.message_id == message_id as usize,
        r.request == Request::GetData,
        r.payload.0@ == payload@,
{
    Message { message_id: message_id as usize, request: Request::GetData, payload: Base64Bytes(payload) }
}

/// A decoded `GetData` answer, under the id and operation of the response
/// that carried it.
pub fn unbuilt_get_data_out(message_id: usize, request: Request, get_data_out: GetDataOut) -> (r: GetDataOutUnbuilt)
    ensures
        r.message_id == message_id as u64,
        r.request == request,
        r.get_data_out == get_data_out,
{
    GetDataOutUnbuilt { message_id: message_id as u64, request, get_data_out }
}

} // verus!
