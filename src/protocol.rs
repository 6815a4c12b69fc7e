pub mod command;
pub mod handshake;
pub mod operations;
pub mod reply;

pub use command::{code_to_msg, encode_frame, error_text, frame_bytes, Command, CommandPacket, CMD_SIZE, MAX_PAYLOAD};
pub use handshake::{
    handshake_outcome, handshake_step, lemma_handshake_connects, lemma_handshake_gives_up,
    sync_bytes, sync_sequence, wake_sequence, Handshake, HandshakeStep, RETRIES,
    RETRY_BACKOFF_MS, WAKE_BYTE, WAKE_LEN, WAKE_SETTLE_MS,
};
pub use operations::{
    boot_info_request, data_chunks, dump_flash, efuse_dump, flash_image, flash_param_payload, get_efuses,
    get_flash_id, get_info, init_flash, lemma_data_chunks_cover, lemma_read_ranges_cover,
    lemma_write_chunks_offsets, payloads, plan_of, read_log, read_plan, read_ranges,
    reenable_log, reset, run, run_plan, segment_plan, send_segment, set_efuse, set_efuses, span,
    write_chunks, write_fuse_block, BootInfo, FlashId, Plan, Request, BOOT_INFO_SIZE,
    CHUNK_SIZE, EFUSE_SLOT_SIZE, FLASH_CLOCK_CFG, FLASH_CLOCK_DELAY, FLASH_IO_MODE,
    SW_CONFIG0_ADDR,
};
pub use reply::{
    bytes_due, fail_status, lemma_reply_reports_code, lemma_reply_returns_payload,
    lemma_reply_without_response, next_phase,
    ok_status, reply_from, reply_of, Exchange, Phase, Reply, Step,
};
