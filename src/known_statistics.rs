//! The statistics whose details are known: one row for each statistic
//! name, with its unit and the kind of statistic it is.
use vstd::prelude::*;
use crate::units::Unit;
use crate::value_statistic_details::{registry_of, StatisticKind, ValueStatistics};

verus! {

/// The known statistics, in the order in which the registry enters them.
///
/// Where a name comes twice, the later row is the one that counts.
pub const KNOWN_STATISTICS: [(&'static str, Unit, StatisticKind); 1600] = [
    ("active_background_compaction_input_bytes_added", Unit::Bytes, StatisticKind::Gauge), // 2.17.2
    ("active_background_compaction_input_bytes_removed", Unit::Bytes, StatisticKind::Gauge), // 2.17.2
    ("active_background_compaction_input_files_added", Unit::Files, StatisticKind::Gauge), // 2.17.2
    ("active_background_compaction_input_files_removed", Unit::Files, StatisticKind::Gauge), // 2.17.2
    ("active_background_compaction_tasks_added", Unit::Tasks, StatisticKind::Gauge), // 2.17.2
    ("active_background_compaction_tasks_removed", Unit::Tasks, StatisticKind::Gauge), // 2.17.2
    ("active_full_compaction_input_bytes_added", Unit::Bytes, StatisticKind::Gauge), // 2.17.2
    ("active_full_compaction_input_bytes_removed", Unit::Bytes, StatisticKind::Gauge), // 2.17.2
    ("active_full_compaction_input_files_added", Unit::Files, StatisticKind::Gauge), // 2.17.2
    ("active_full_compaction_input_files_removed", Unit::Files, StatisticKind::Gauge), // 2.17.2
    ("active_full_compaction_tasks_added", Unit::Tasks, StatisticKind::Gauge), // 2.17.2
    ("active_full_compaction_tasks_removed", Unit::Tasks, StatisticKind::Gauge), // 2.17.2
    ("active_post_split_compaction_input_bytes_added", Unit::Bytes, StatisticKind::Gauge), // 2.17.2
    ("active_post_split_compaction_input_bytes_removed", Unit::Bytes, StatisticKind::Gauge), // 2.17.2
    ("active_post_split_compaction_input_files_added", Unit::Files, StatisticKind::Gauge), // 2.17.2
    ("active_post_split_compaction_input_files_removed", Unit::Files, StatisticKind::Gauge), // 2.17.2
    ("active_post_split_compaction_tasks_added", Unit::Tasks, StatisticKind::Gauge), // 2.17.2
    ("active_post_split_compaction_tasks_removed", Unit::Tasks, StatisticKind::Gauge), // 2.17.2
    ("active_task_metrics_compaction_input_bytes_added", Unit::Bytes, StatisticKind::Gauge),
    ("active_task_metrics_compaction_input_bytes_removed", Unit::Bytes, StatisticKind::Gauge),
    ("active_task_metrics_compaction_input_files_added", Unit::Files, StatisticKind::Gauge),
    ("active_task_metrics_compaction_input_files_removed", Unit::Files, StatisticKind::Gauge),
    ("active_task_metrics_compaction_tasks_added", Unit::Tasks, StatisticKind::Gauge),
    ("active_task_metrics_compaction_tasks_removed", Unit::Tasks, StatisticKind::Gauge),
    ("all_operations_inflight", Unit::Operations, StatisticKind::Gauge),
    ("alter_schema_operations_inflight", Unit::Operations, StatisticKind::Gauge),
    ("automatic_split_manager_time", Unit::Milliseconds, StatisticKind::Gauge),
    ("block_cache_evictions", Unit::Blocks, StatisticKind::Counter),
    ("block_cache_hits", Unit::Blocks, StatisticKind::Counter),
    ("block_cache_hits_caching", Unit::Blocks, StatisticKind::Counter),
    ("block_cache_inserts", Unit::Blocks, StatisticKind::Counter),
    ("block_cache_lookups", Unit::Blocks, StatisticKind::Counter),
    ("block_cache_misses", Unit::Blocks, StatisticKind::Counter),
    ("block_cache_misses_caching", Unit::Blocks, StatisticKind::Counter),
    ("block_cache_multi_touch_usage", Unit::Bytes, StatisticKind::Gauge),
    ("block_cache_single_touch_usage", Unit::Bytes, StatisticKind::Gauge),
    ("block_cache_usage", Unit::Bytes, StatisticKind::Gauge),
    ("cdc_rpc_proxy_count", Unit::Requests, StatisticKind::Counter),
    ("change_auto_flags_config_operations_inflight", Unit::Operations, StatisticKind::Gauge), // 2.17
    ("consistent_prefix_failed_reads", Unit::Requests, StatisticKind::Counter),
    ("consistent_prefix_read_requests", Unit::Requests, StatisticKind::Counter),
    ("consistent_prefix_successful_reads", Unit::Requests, StatisticKind::Counter),
    ("cpu_stime", Unit::Milliseconds, StatisticKind::Counter),
    ("cpu_utime", Unit::Milliseconds, StatisticKind::Counter),
    ("cql_parsers_alive", Unit::Parsers, StatisticKind::Gauge),
    ("cql_parsers_created", Unit::Parsers, StatisticKind::Counter),
    ("cql_processors_alive", Unit::Processors, StatisticKind::Gauge),
    ("cql_processors_created", Unit::Processors, StatisticKind::Counter),
    ("deadlock_detector_waiters", Unit::Transactions, StatisticKind::Gauge), // 2.17
    ("duration_ms_loading_entries_with_type_1", Unit::Milliseconds, StatisticKind::Counter),
    ("duration_ms_loading_entries_with_type_10", Unit::Milliseconds, StatisticKind::Counter),
    ("duration_ms_loading_entries_with_type_11", Unit::Milliseconds, StatisticKind::Counter),
    ("duration_ms_loading_entries_with_type_15", Unit::Milliseconds, StatisticKind::Counter),
    ("duration_ms_loading_entries_with_type_2", Unit::Milliseconds, StatisticKind::Counter),
    ("duration_ms_loading_entries_with_type_3", Unit::Milliseconds, StatisticKind::Counter),
    ("duration_ms_loading_entries_with_type_4", Unit::Milliseconds, StatisticKind::Counter),
    ("duration_ms_loading_entries_with_type_5", Unit::Milliseconds, StatisticKind::Counter),
    ("duration_ms_loading_entries_with_type_6", Unit::Milliseconds, StatisticKind::Counter),
    ("duration_ms_loading_entries_with_type_7", Unit::Milliseconds, StatisticKind::Counter),
    ("duration_ms_loading_entries_with_type_8", Unit::Milliseconds, StatisticKind::Counter),
    ("duration_ms_loading_entries_with_type_9", Unit::Milliseconds, StatisticKind::Counter),
    ("empty_operations_inflight", Unit::Operations, StatisticKind::Gauge),
    ("expired_transactions", Unit::Transactions, StatisticKind::Counter),
    ("follower_lag_ms", Unit::Milliseconds, StatisticKind::Gauge),
    ("follower_memory_pressure_rejections", Unit::Rejections, StatisticKind::Counter),
    ("generic_current_allocated_bytes", Unit::Bytes, StatisticKind::Gauge),
    ("generic_heap_size", Unit::Bytes, StatisticKind::Gauge),
    ("glog_error_messages", Unit::Messages, StatisticKind::Counter),
    ("glog_info_messages", Unit::Messages, StatisticKind::Counter),
    ("glog_warning_messages", Unit::Messages, StatisticKind::Counter),
    ("history_cutoff_operations_inflight", Unit::Operations, StatisticKind::Gauge),
    ("hybrid_clock_error", Unit::Microseconds, StatisticKind::Gauge),
    ("hybrid_clock_hybrid_time", Unit::Microseconds, StatisticKind::Gauge),
    ("hybrid_clock_skew", Unit::Microseconds, StatisticKind::Gauge),
    ("in_progress_ops", Unit::Operations, StatisticKind::Gauge),
    ("involuntary_context_switches", Unit::ContextSwitches, StatisticKind::Counter),
    ("iproxy_response_bytes_yb_master_MasterAdmin_AddTransactionStatusTablet", Unit::Bytes, StatisticKind::Counter),
    ("is_load_balancing_enabled", Unit::Indicator, StatisticKind::Gauge), // 2.15.3.0
    ("is_raft_leader", Unit::Indicator, StatisticKind::Gauge),
    ("leader_memory_pressure_rejections", Unit::Rejections, StatisticKind::Counter),
    ("log_bytes_logged", Unit::Bytes, StatisticKind::Counter),
    ("log_cache_disk_reads", Unit::Reads, StatisticKind::Counter),
    ("log_cache_num_ops", Unit::Operations, StatisticKind::Gauge),
    ("log_cache_size", Unit::Bytes, StatisticKind::Gauge),
    ("log_gc_running", Unit::Operations, StatisticKind::Gauge),
    ("log_reader_bytes_read", Unit::Bytes, StatisticKind::Counter),
    ("log_reader_entries_read", Unit::Entries, StatisticKind::Counter),
    ("log_wal_size", Unit::Bytes, StatisticKind::Gauge),
    ("majority_done_ops", Unit::Operations, StatisticKind::Gauge),
    ("majority_sst_files_rejections", Unit::Rejections, StatisticKind::Counter),
    ("mem_tracker", Unit::Bytes, StatisticKind::Gauge),
    ("mem_tracker_BlockBasedTable", Unit::Bytes, StatisticKind::Gauge),
    ("mem_tracker_BlockBasedTable_IntentsDB", Unit::Bytes, StatisticKind::Gauge),
    ("mem_tracker_BlockBasedTable_RegularDB", Unit::Bytes, StatisticKind::Gauge),
    ("mem_tracker_CQL_prepared_statements", Unit::Bytes, StatisticKind::Gauge),
    ("mem_tracker_CQL_processors", Unit::Bytes, StatisticKind::Gauge),
    ("mem_tracker_Call", Unit::Bytes, StatisticKind::Gauge),
    ("mem_tracker_Call_CQL", Unit::Bytes, StatisticKind::Gauge),
    ("mem_tracker_Call_Inbound_RPC", Unit::Bytes, StatisticKind::Gauge),
    ("mem_tracker_Call_Outbound_RPC", Unit::Bytes, StatisticKind::Gauge),
    ("mem_tracker_Call_Redis", Unit::Bytes, StatisticKind::Gauge),
    ("mem_tracker_Compressed_Read_Buffer", Unit::Bytes, StatisticKind::Gauge),
    ("mem_tracker_Compressed_Read_Buffer_Receive", Unit::Bytes, StatisticKind::Gauge),
    ("mem_tracker_Encrypted_Read_Buffer_Receive", Unit::Bytes, StatisticKind::Gauge),
    ("mem_tracker_IntentsDB", Unit::Bytes, StatisticKind::Gauge),
    ("mem_tracker_IntentsDB_MemTable", Unit::Bytes, StatisticKind::Gauge),
    ("mem_tracker_OperationsFromDisk", Unit::Bytes, StatisticKind::Gauge),
    ("mem_tracker_Read_Buffer", Unit::Bytes, StatisticKind::Gauge),
    ("mem_tracker_Read_Buffer_CQL", Unit::Bytes, StatisticKind::Gauge),
    ("mem_tracker_Read_Buffer_CQL_Reading", Unit::Bytes, StatisticKind::Gauge), // 2.17.2
    ("mem_tracker_Read_Buffer_CQL_Receive", Unit::Bytes, StatisticKind::Gauge), // 2.17.2
    ("mem_tracker_Read_Buffer_CQL_Sending", Unit::Bytes, StatisticKind::Gauge), // 2.17.2
    ("mem_tracker_Read_Buffer_Inbound_RPC", Unit::Bytes, StatisticKind::Gauge),
    ("mem_tracker_Read_Buffer_Inbound_RPC_Reading", Unit::Bytes, StatisticKind::Gauge),
    ("mem_tracker_Read_Buffer_Inbound_RPC_Receive", Unit::Bytes, StatisticKind::Gauge),
    ("mem_tracker_Read_Buffer_Inbound_RPC_Sending", Unit::Bytes, StatisticKind::Gauge),
    ("mem_tracker_Read_Buffer_Outbound_RPC", Unit::Bytes, StatisticKind::Gauge),
    ("mem_tracker_Read_Buffer_Outbound_RPC_Queueing", Unit::Bytes, StatisticKind::Gauge),
    ("mem_tracker_Read_Buffer_Outbound_RPC_Reading", Unit::Bytes, StatisticKind::Gauge),
    ("mem_tracker_Read_Buffer_Outbound_RPC_Receive", Unit::Bytes, StatisticKind::Gauge),
    ("mem_tracker_Read_Buffer_Outbound_RPC_Sending", Unit::Bytes, StatisticKind::Gauge),
    ("mem_tracker_Read_Buffer_Redis", Unit::Bytes, StatisticKind::Gauge),
    ("mem_tracker_Read_Buffer_Redis_Allocated", Unit::Bytes, StatisticKind::Gauge),
    ("mem_tracker_Read_Buffer_Redis_Mandatory", Unit::Bytes, StatisticKind::Gauge),
    ("mem_tracker_Read_Buffer_Redis_Used", Unit::Bytes, StatisticKind::Gauge),
    ("mem_tracker_RegularDB", Unit::Bytes, StatisticKind::Gauge),
    ("mem_tracker_RegularDB_MemTable", Unit::Bytes, StatisticKind::Gauge),
    ("mem_tracker_Tablets", Unit::Bytes, StatisticKind::Gauge),
    ("mem_tracker_log_cache", Unit::Bytes, StatisticKind::Gauge),
    ("mem_tracker_operation_tracker", Unit::Bytes, StatisticKind::Gauge),
    ("nonactive_background_compaction_input_bytes_added", Unit::Bytes, StatisticKind::Gauge), // 2.17.2
    ("nonactive_background_compaction_input_bytes_removed", Unit::Bytes, StatisticKind::Gauge), // 2.17.2
    ("nonactive_background_compaction_input_files_added", Unit::Files, StatisticKind::Gauge), // 2.17.2
    ("nonactive_background_compaction_input_files_removed", Unit::Files, StatisticKind::Gauge), // 2.17.2
    ("nonactive_background_compaction_tasks_added", Unit::Tasks, StatisticKind::Gauge), // 2.17.2
    ("nonactive_background_compaction_tasks_removed", Unit::Tasks, StatisticKind::Gauge), // 2.17.2
    ("nonactive_full_compaction_input_bytes_added", Unit::Bytes, StatisticKind::Gauge), // 2.17.2
    ("nonactive_full_compaction_input_bytes_removed", Unit::Bytes, StatisticKind::Gauge), // 2.17.2
    ("nonactive_full_compaction_input_files_added", Unit::Files, StatisticKind::Gauge), // 2.17.2
    ("nonactive_full_compaction_input_files_removed", Unit::Files, StatisticKind::Gauge), // 2.17.2
    ("nonactive_full_compaction_tasks_added", Unit::Tasks, StatisticKind::Gauge), // 2.17.2
    ("nonactive_full_compaction_tasks_removed", Unit::Tasks, StatisticKind::Gauge), // 2.17.2
    ("nonactive_post_split_compaction_input_bytes_added", Unit::Bytes, StatisticKind::Gauge), // 2.17.2
    ("nonactive_post_split_compaction_input_bytes_removed", Unit::Bytes, StatisticKind::Gauge), // 2.17.2
    ("nonactive_post_split_compaction_input_files_added", Unit::Files, StatisticKind::Gauge), // 2.17.2
    ("nonactive_post_split_compaction_input_files_removed", Unit::Files, StatisticKind::Gauge), // 2.17.2
    ("nonactive_post_split_compaction_tasks_added", Unit::Tasks, StatisticKind::Gauge), // 2.17.2
    ("nonactive_post_split_compaction_tasks_removed", Unit::Tasks, StatisticKind::Gauge), // 2.17.2
    ("nonactive_task_metrics_compaction_input_bytes_added", Unit::Bytes, StatisticKind::Gauge), // 2.17.2
    ("nonactive_task_metrics_compaction_input_bytes_removed", Unit::Bytes, StatisticKind::Gauge), // 2.17.2
    ("nonactive_task_metrics_compaction_input_files_added", Unit::Files, StatisticKind::Gauge), // 2.17.2
    ("nonactive_task_metrics_compaction_input_files_removed", Unit::Files, StatisticKind::Gauge), // 2.17.2
    ("nonactive_task_metrics_compaction_tasks_added", Unit::Tasks, StatisticKind::Gauge), // 2.17.2
    ("nonactive_task_metrics_compaction_tasks_removed", Unit::Tasks, StatisticKind::Gauge), // 2.17.2
    ("not_leader_rejections", Unit::Rejections, StatisticKind::Counter),
    ("num_entries_with_type_10_loaded", Unit::Entries, StatisticKind::Counter),
    ("num_entries_with_type_11_loaded", Unit::Entries, StatisticKind::Counter),
    ("num_entries_with_type_15_loaded", Unit::Entries, StatisticKind::Counter),
    ("num_entries_with_type_1_loaded", Unit::Entries, StatisticKind::Counter),
    ("num_entries_with_type_2_loaded", Unit::Entries, StatisticKind::Counter),
    ("num_entries_with_type_3_loaded", Unit::Entries, StatisticKind::Counter),
    ("num_entries_with_type_4_loaded", Unit::Entries, StatisticKind::Counter),
    ("num_entries_with_type_5_loaded", Unit::Entries, StatisticKind::Counter),
    ("num_entries_with_type_6_loaded", Unit::Entries, StatisticKind::Counter),
    ("num_entries_with_type_6_loaded", Unit::Entries, StatisticKind::Counter),
    ("num_entries_with_type_7_loaded", Unit::Entries, StatisticKind::Counter),
    ("num_entries_with_type_8_loaded", Unit::Entries, StatisticKind::Counter),
    ("num_entries_with_type_9_loaded", Unit::Entries, StatisticKind::Counter),
    ("num_tablet_servers_dead", Unit::Entries, StatisticKind::Gauge),
    ("num_tablet_servers_live", Unit::Entries, StatisticKind::Gauge),
    ("operation_memory_pressure_rejections", Unit::Rejections, StatisticKind::Counter),
    ("paused_background_compaction_input_bytes_added", Unit::Bytes, StatisticKind::Gauge), // 2.17.2
    ("paused_background_compaction_input_bytes_removed", Unit::Bytes, StatisticKind::Gauge), // 2.17.2
    ("paused_background_compaction_input_files_added", Unit::Files, StatisticKind::Gauge), // 2.17.2
    ("paused_background_compaction_input_files_removed", Unit::Files, StatisticKind::Gauge), // 2.17.2
    ("paused_background_compaction_tasks_added", Unit::Tasks, StatisticKind::Gauge), // 2.17.2
    ("paused_background_compaction_tasks_removed", Unit::Tasks, StatisticKind::Gauge), // 2.17.2
    ("paused_full_compaction_input_bytes_added", Unit::Bytes, StatisticKind::Gauge), // 2.17.2
    ("paused_full_compaction_input_bytes_removed", Unit::Bytes, StatisticKind::Gauge), // 2.17.2
    ("paused_full_compaction_input_files_added", Unit::Files, StatisticKind::Gauge), // 2.17.2
    ("paused_full_compaction_input_files_removed", Unit::Files, StatisticKind::Gauge), // 2.17.2
    ("paused_full_compaction_tasks_added", Unit::Tasks, StatisticKind::Gauge), // 2.17.2
    ("paused_full_compaction_tasks_removed", Unit::Tasks, StatisticKind::Gauge), // 2.17.2
    ("paused_post_split_compaction_input_bytes_added", Unit::Bytes, StatisticKind::Gauge), // 2.17.2
    ("paused_post_split_compaction_input_bytes_removed", Unit::Bytes, StatisticKind::Gauge), // 2.17.2
    ("paused_post_split_compaction_input_files_added", Unit::Files, StatisticKind::Gauge), // 2.17.2
    ("paused_post_split_compaction_input_files_removed", Unit::Files, StatisticKind::Gauge), // 2.17.2
    ("paused_post_split_compaction_tasks_added", Unit::Tasks, StatisticKind::Gauge), // 2.17.2
    ("paused_post_split_compaction_tasks_removed", Unit::Tasks, StatisticKind::Gauge), // 2.17.2
    ("paused_task_metrics_compaction_input_bytes_added", Unit::Bytes, StatisticKind::Gauge),
    ("paused_task_metrics_compaction_input_bytes_removed", Unit::Bytes, StatisticKind::Gauge),
    ("paused_task_metrics_compaction_input_files_added", Unit::Files, StatisticKind::Gauge),
    ("paused_task_metrics_compaction_input_files_removed", Unit::Files, StatisticKind::Gauge),
    ("paused_task_metrics_compaction_tasks_added", Unit::Tasks, StatisticKind::Gauge),
    ("paused_task_metrics_compaction_tasks_removed", Unit::Tasks, StatisticKind::Gauge),
    ("pg_response_cache_hits", Unit::Hits, StatisticKind::Counter), // 2.17.2
    ("pg_response_cache_queries", Unit::Hits, StatisticKind::Counter), // 2.17.2
    ("pgsql_consistent_prefix_read_rows", Unit::Rows, StatisticKind::Counter),
    ("proxy_request_bytes_yb_consensus_ConsensusService_ChangeConfig", Unit::Bytes, StatisticKind::Counter),
    ("proxy_request_bytes_yb_consensus_ConsensusService_GetConsensusState", Unit::Bytes, StatisticKind::Counter),
    ("proxy_request_bytes_yb_consensus_ConsensusService_GetLastOpId", Unit::Bytes, StatisticKind::Counter),
    ("proxy_request_bytes_yb_consensus_ConsensusService_GetNodeInstance", Unit::Bytes, StatisticKind::Counter),
    ("proxy_request_bytes_yb_consensus_ConsensusService_LeaderElectionLost", Unit::Bytes, StatisticKind::Counter),
    ("proxy_request_bytes_yb_consensus_ConsensusService_LeaderStepDown", Unit::Bytes, StatisticKind::Counter),
    ("proxy_request_bytes_yb_consensus_ConsensusService_MultiRaftUpdateConsensus", Unit::Bytes, StatisticKind::Counter),
    ("proxy_request_bytes_yb_consensus_ConsensusService_RequestConsensusVote", Unit::Bytes, StatisticKind::Counter),
    ("proxy_request_bytes_yb_consensus_ConsensusService_RunLeaderElection", Unit::Bytes, StatisticKind::Counter),
    ("proxy_request_bytes_yb_consensus_ConsensusService_StartRemoteBootstrap", Unit::Bytes, StatisticKind::Counter),
    ("proxy_request_bytes_yb_consensus_ConsensusService_UnsafeChangeConfig", Unit::Bytes, StatisticKind::Counter),
    ("proxy_request_bytes_yb_consensus_ConsensusService_UpdateConsensus", Unit::Bytes, StatisticKind::Counter),
    ("proxy_request_bytes_yb_master_MasterAdmin_AddTransactionStatusTablet", Unit::Bytes, StatisticKind::Counter),
    ("proxy_request_bytes_yb_master_MasterAdmin_CheckIfPitrActive", Unit::Bytes, StatisticKind::Counter),
    ("proxy_request_bytes_yb_master_MasterAdmin_CompactSysCatalog", Unit::Bytes, StatisticKind::Counter),
    ("proxy_request_bytes_yb_master_MasterAdmin_CreateTransactionStatusTable", Unit::Bytes, StatisticKind::Counter),
    ("proxy_request_bytes_yb_master_MasterAdmin_DdlLog", Unit::Bytes, StatisticKind::Counter),
    ("proxy_request_bytes_yb_master_MasterAdmin_DeleteNotServingTablet", Unit::Bytes, StatisticKind::Counter),
    ("proxy_request_bytes_yb_master_MasterAdmin_DisableTabletSplitting", Unit::Bytes, StatisticKind::Counter),
    ("proxy_request_bytes_yb_master_MasterAdmin_FlushSysCatalog", Unit::Bytes, StatisticKind::Counter),
    ("proxy_request_bytes_yb_master_MasterAdmin_FlushTables", Unit::Bytes, StatisticKind::Counter),
    ("proxy_request_bytes_yb_master_MasterAdmin_IsFlushTablesDone", Unit::Bytes, StatisticKind::Counter),
    ("proxy_request_bytes_yb_master_MasterAdmin_IsInitDbDone", Unit::Bytes, StatisticKind::Counter),
    ("proxy_request_bytes_yb_master_MasterAdmin_IsTabletSplittingComplete", Unit::Bytes, StatisticKind::Counter),
    ("proxy_request_bytes_yb_master_MasterAdmin_SplitTablet", Unit::Bytes, StatisticKind::Counter),
    ("proxy_request_bytes_yb_master_MasterClient_GetTableLocations", Unit::Bytes, StatisticKind::Counter),
    ("proxy_request_bytes_yb_master_MasterClient_GetTabletLocations", Unit::Bytes, StatisticKind::Counter),
    ("proxy_request_bytes_yb_master_MasterClient_GetTransactionStatusTablets", Unit::Bytes, StatisticKind::Counter),
    ("proxy_request_bytes_yb_master_MasterClient_GetYsqlCatalogConfig", Unit::Bytes, StatisticKind::Counter),
    ("proxy_request_bytes_yb_master_MasterClient_RedisConfigGet", Unit::Bytes, StatisticKind::Counter),
    ("proxy_request_bytes_yb_master_MasterClient_RedisConfigSet", Unit::Bytes, StatisticKind::Counter),
    ("proxy_request_bytes_yb_master_MasterClient_ReservePgsqlOids", Unit::Bytes, StatisticKind::Counter),
    ("proxy_request_bytes_yb_master_MasterCluster_AreLeadersOnPreferredOnly", Unit::Bytes, StatisticKind::Counter),
    ("proxy_request_bytes_yb_master_MasterCluster_ChangeLoadBalancerState", Unit::Bytes, StatisticKind::Counter),
    ("proxy_request_bytes_yb_master_MasterCluster_ChangeMasterClusterConfig", Unit::Bytes, StatisticKind::Counter),
    ("proxy_request_bytes_yb_master_MasterCluster_DumpState", Unit::Bytes, StatisticKind::Counter),
    ("proxy_request_bytes_yb_master_MasterCluster_GetAutoFlagsConfig", Unit::Bytes, StatisticKind::Counter),
    ("proxy_request_bytes_yb_master_MasterCluster_GetLeaderBlacklistCompletion", Unit::Bytes, StatisticKind::Counter),
    ("proxy_request_bytes_yb_master_MasterCluster_GetLoadBalancerState", Unit::Bytes, StatisticKind::Counter),
    ("proxy_request_bytes_yb_master_MasterCluster_GetLoadMoveCompletion", Unit::Bytes, StatisticKind::Counter),
    ("proxy_request_bytes_yb_master_MasterCluster_GetMasterClusterConfig", Unit::Bytes, StatisticKind::Counter),
    ("proxy_request_bytes_yb_master_MasterCluster_GetMasterRegistration", Unit::Bytes, StatisticKind::Counter),
    ("proxy_request_bytes_yb_master_MasterCluster_IsLoadBalanced", Unit::Bytes, StatisticKind::Counter),
    ("proxy_request_bytes_yb_master_MasterCluster_IsLoadBalancerIdle", Unit::Bytes, StatisticKind::Counter),
    ("proxy_request_bytes_yb_master_MasterCluster_IsMasterLeaderServiceReady", Unit::Bytes, StatisticKind::Counter),
    ("proxy_request_bytes_yb_master_MasterCluster_ListLiveTabletServers", Unit::Bytes, StatisticKind::Counter),
    ("proxy_request_bytes_yb_master_MasterCluster_ListMasterRaftPeers", Unit::Bytes, StatisticKind::Counter),
    ("proxy_request_bytes_yb_master_MasterCluster_ListMasters", Unit::Bytes, StatisticKind::Counter),
    ("proxy_request_bytes_yb_master_MasterCluster_ListTabletServers", Unit::Bytes, StatisticKind::Counter),
    ("proxy_request_bytes_yb_master_MasterCluster_PromoteAutoFlags", Unit::Bytes, StatisticKind::Counter), // 2.17
    ("proxy_request_bytes_yb_master_MasterCluster_RemovedMasterUpdate", Unit::Bytes, StatisticKind::Counter),
    ("proxy_request_bytes_yb_master_MasterCluster_SetPreferredZones", Unit::Bytes, StatisticKind::Counter),
    ("proxy_request_bytes_yb_master_MasterDcl_AlterRole", Unit::Bytes, StatisticKind::Counter),
    ("proxy_request_bytes_yb_master_MasterDcl_CreateRole", Unit::Bytes, StatisticKind::Counter),
    ("proxy_request_bytes_yb_master_MasterDcl_DeleteRole", Unit::Bytes, StatisticKind::Counter),
    ("proxy_request_bytes_yb_master_MasterDcl_GetPermissions", Unit::Bytes, StatisticKind::Counter),
    ("proxy_request_bytes_yb_master_MasterDcl_GrantRevokePermission", Unit::Bytes, StatisticKind::Counter),
    ("proxy_request_bytes_yb_master_MasterDcl_GrantRevokeRole", Unit::Bytes, StatisticKind::Counter),
    ("proxy_request_bytes_yb_master_MasterDdl_AlterNamespace", Unit::Bytes, StatisticKind::Counter),
    ("proxy_request_bytes_yb_master_MasterDdl_AlterTable", Unit::Bytes, StatisticKind::Counter),
    ("proxy_request_bytes_yb_master_MasterDdl_BackfillIndex", Unit::Bytes, StatisticKind::Counter),
    ("proxy_request_bytes_yb_master_MasterDdl_CreateNamespace", Unit::Bytes, StatisticKind::Counter),
    ("proxy_request_bytes_yb_master_MasterDdl_CreateTable", Unit::Bytes, StatisticKind::Counter),
    ("proxy_request_bytes_yb_master_MasterDdl_CreateTablegroup", Unit::Bytes, StatisticKind::Counter),
    ("proxy_request_bytes_yb_master_MasterDdl_CreateUDType", Unit::Bytes, StatisticKind::Counter),
    ("proxy_request_bytes_yb_master_MasterDdl_DeleteNamespace", Unit::Bytes, StatisticKind::Counter),
    ("proxy_request_bytes_yb_master_MasterDdl_DeleteTable", Unit::Bytes, StatisticKind::Counter),
    ("proxy_request_bytes_yb_master_MasterDdl_DeleteTablegroup", Unit::Bytes, StatisticKind::Counter),
    ("proxy_request_bytes_yb_master_MasterDdl_DeleteUDType", Unit::Bytes, StatisticKind::Counter),
    ("proxy_request_bytes_yb_master_MasterDdl_GetBackfillJobs", Unit::Bytes, StatisticKind::Counter),
    ("proxy_request_bytes_yb_master_MasterDdl_GetColocatedTabletSchema", Unit::Bytes, StatisticKind::Counter),
    ("proxy_request_bytes_yb_master_MasterDdl_GetNamespaceInfo", Unit::Bytes, StatisticKind::Counter),
    ("proxy_request_bytes_yb_master_MasterDdl_GetTableDiskSize", Unit::Bytes, StatisticKind::Counter),
    ("proxy_request_bytes_yb_master_MasterDdl_GetTableSchema", Unit::Bytes, StatisticKind::Counter),
    ("proxy_request_bytes_yb_master_MasterDdl_GetTablegroupSchema", Unit::Bytes, StatisticKind::Counter),
    ("proxy_request_bytes_yb_master_MasterDdl_GetUDTypeInfo", Unit::Bytes, StatisticKind::Counter),
    ("proxy_request_bytes_yb_master_MasterDdl_IsAlterTableDone", Unit::Bytes, StatisticKind::Counter),
    ("proxy_request_bytes_yb_master_MasterDdl_IsCreateNamespaceDone", Unit::Bytes, StatisticKind::Counter),
    ("proxy_request_bytes_yb_master_MasterDdl_IsCreateTableDone", Unit::Bytes, StatisticKind::Counter),
    ("proxy_request_bytes_yb_master_MasterDdl_IsDeleteNamespaceDone", Unit::Bytes, StatisticKind::Counter),
    ("proxy_request_bytes_yb_master_MasterDdl_IsDeleteTableDone", Unit::Bytes, StatisticKind::Counter),
    ("proxy_request_bytes_yb_master_MasterDdl_IsTruncateTableDone", Unit::Bytes, StatisticKind::Counter),
    ("proxy_request_bytes_yb_master_MasterDdl_LaunchBackfillIndexForTable", Unit::Bytes, StatisticKind::Counter),
    ("proxy_request_bytes_yb_master_MasterDdl_ListNamespaces", Unit::Bytes, StatisticKind::Counter),
    ("proxy_request_bytes_yb_master_MasterDdl_ListTablegroups", Unit::Bytes, StatisticKind::Counter),
    ("proxy_request_bytes_yb_master_MasterDdl_ListTables", Unit::Bytes, StatisticKind::Counter),
    ("proxy_request_bytes_yb_master_MasterDdl_ListUDTypes", Unit::Bytes, StatisticKind::Counter),
    ("proxy_request_bytes_yb_master_MasterDdl_TruncateTable", Unit::Bytes, StatisticKind::Counter),
    ("proxy_request_bytes_yb_master_MasterEncryption_AddUniverseKeys", Unit::Bytes, StatisticKind::Counter),
    ("proxy_request_bytes_yb_master_MasterEncryption_ChangeEncryptionInfo", Unit::Bytes, StatisticKind::Counter),
    ("proxy_request_bytes_yb_master_MasterEncryption_GetUniverseKeyRegistry", Unit::Bytes, StatisticKind::Counter),
    ("proxy_request_bytes_yb_master_MasterEncryption_HasUniverseKeyInMemory", Unit::Bytes, StatisticKind::Counter),
    ("proxy_request_bytes_yb_master_MasterEncryption_IsEncryptionEnabled", Unit::Bytes, StatisticKind::Counter),
    ("proxy_request_bytes_yb_master_MasterHeartbeat_TSHeartbeat", Unit::Bytes, StatisticKind::Counter),
    ("proxy_request_bytes_yb_master_MasterReplication_AlterUniverseReplication", Unit::Bytes, StatisticKind::Counter),
    ("proxy_request_bytes_yb_master_MasterReplication_ChangeXClusterRole", Unit::Bytes, StatisticKind::Counter), // 2.17
    ("proxy_request_bytes_yb_master_MasterReplication_CreateCDCStream", Unit::Bytes, StatisticKind::Counter),
    ("proxy_request_bytes_yb_master_MasterReplication_DeleteCDCStream", Unit::Bytes, StatisticKind::Counter),
    ("proxy_request_bytes_yb_master_MasterReplication_DeleteUniverseReplication", Unit::Bytes, StatisticKind::Counter),
    ("proxy_request_bytes_yb_master_MasterReplication_GetCDCDBStreamInfo", Unit::Bytes, StatisticKind::Counter),
    ("proxy_request_bytes_yb_master_MasterReplication_GetCDCStream", Unit::Bytes, StatisticKind::Counter),
    ("proxy_request_bytes_yb_master_MasterReplication_GetReplicationStatus", Unit::Bytes, StatisticKind::Counter), // 2.17
    ("proxy_request_bytes_yb_master_MasterReplication_GetTableSchemaFromSysCatalog", Unit::Bytes, StatisticKind::Counter), // 2.17.2
    ("proxy_request_bytes_yb_master_MasterReplication_GetUDTypeMetadata", Unit::Bytes, StatisticKind::Counter),
    ("proxy_request_bytes_yb_master_MasterReplication_GetUniverseReplication", Unit::Bytes, StatisticKind::Counter),
    ("proxy_request_bytes_yb_master_MasterReplication_GetXClusterEstimatedDataLoss", Unit::Bytes, StatisticKind::Counter), // 2.17
    ("proxy_request_bytes_yb_master_MasterReplication_GetXClusterSafeTime", Unit::Bytes, StatisticKind::Counter), // 2.17
    ("proxy_request_bytes_yb_master_MasterReplication_IsBootstrapRequired", Unit::Bytes, StatisticKind::Counter),
    ("proxy_request_bytes_yb_master_MasterReplication_IsSetupUniverseReplicationDone", Unit::Bytes, StatisticKind::Counter),
    ("proxy_request_bytes_yb_master_MasterReplication_ListCDCStreams", Unit::Bytes, StatisticKind::Counter),
    ("proxy_request_bytes_yb_master_MasterReplication_SetUniverseReplicationEnabled", Unit::Bytes, StatisticKind::Counter),
    ("proxy_request_bytes_yb_master_MasterReplication_SetupNSUniverseReplication", Unit::Bytes, StatisticKind::Counter),
    ("proxy_request_bytes_yb_master_MasterReplication_SetupUniverseReplication", Unit::Bytes, StatisticKind::Counter),
    ("proxy_request_bytes_yb_master_MasterReplication_UpdateCDCStream", Unit::Bytes, StatisticKind::Counter),
    ("proxy_request_bytes_yb_master_MasterReplication_UpdateConsumerOnProducerMetadata", Unit::Bytes, StatisticKind::Counter),
    ("proxy_request_bytes_yb_master_MasterReplication_UpdateConsumerOnProducerSplit", Unit::Bytes, StatisticKind::Counter),
    ("proxy_request_bytes_yb_master_MasterReplication_ValidateReplicationInfo", Unit::Bytes, StatisticKind::Counter),
    ("proxy_request_bytes_yb_master_MasterReplication_WaitForReplicationDrain", Unit::Bytes, StatisticKind::Counter),
    ("proxy_request_bytes_yb_master_MasterService_AddUniverseKeys", Unit::Bytes, StatisticKind::Counter),
    ("proxy_request_bytes_yb_master_MasterService_AlterNamespace", Unit::Bytes, StatisticKind::Counter),
    ("proxy_request_bytes_yb_master_MasterService_AlterRole", Unit::Bytes, StatisticKind::Counter),
    ("proxy_request_bytes_yb_master_MasterService_AlterTable", Unit::Bytes, StatisticKind::Counter),
    ("proxy_request_bytes_yb_master_MasterService_AlterUniverseReplication", Unit::Bytes, StatisticKind::Counter),
    ("proxy_request_bytes_yb_master_MasterService_AreLoadersOnPreferredOnly", Unit::Bytes, StatisticKind::Counter),
    ("proxy_request_bytes_yb_master_MasterService_BackfillIndex", Unit::Bytes, StatisticKind::Counter),
    ("proxy_request_bytes_yb_master_MasterService_ChangeEncryptionInfo", Unit::Bytes, StatisticKind::Counter),
    ("proxy_request_bytes_yb_master_MasterService_ChangeLoadBalancerState", Unit::Bytes, StatisticKind::Counter),
    ("proxy_request_bytes_yb_master_MasterService_ChangeMasterClusterConfig", Unit::Bytes, StatisticKind::Counter),
    ("proxy_request_bytes_yb_master_MasterService_CreateCDCStream", Unit::Bytes, StatisticKind::Counter),
    ("proxy_request_bytes_yb_master_MasterService_CreateNamespace", Unit::Bytes, StatisticKind::Counter),
    ("proxy_request_bytes_yb_master_MasterService_CreateRole", Unit::Bytes, StatisticKind::Counter),
    ("proxy_request_bytes_yb_master_MasterService_CreateTable", Unit::Bytes, StatisticKind::Counter),
    ("proxy_request_bytes_yb_master_MasterService_CreateTablegroup", Unit::Bytes, StatisticKind::Counter),
    ("proxy_request_bytes_yb_master_MasterService_CreateTransactionStatusTable", Unit::Bytes, StatisticKind::Counter),
    ("proxy_request_bytes_yb_master_MasterService_CreateUDType", Unit::Bytes, StatisticKind::Counter),
    ("proxy_request_bytes_yb_master_MasterService_DdlLog", Unit::Bytes, StatisticKind::Counter),
    ("proxy_request_bytes_yb_master_MasterService_DeleteCDCStream", Unit::Bytes, StatisticKind::Counter),
    ("proxy_request_bytes_yb_master_MasterService_DeleteNamespace", Unit::Bytes, StatisticKind::Counter),
    ("proxy_request_bytes_yb_master_MasterService_DeleteNotServingTablet", Unit::Bytes, StatisticKind::Counter),
    ("proxy_request_bytes_yb_master_MasterService_DeleteRole", Unit::Bytes, StatisticKind::Counter),
    ("proxy_request_bytes_yb_master_MasterService_DeleteTable", Unit::Bytes, StatisticKind::Counter),
    ("proxy_request_bytes_yb_master_MasterService_DeleteTablegroup", Unit::Bytes, StatisticKind::Counter),
    ("proxy_request_bytes_yb_master_MasterService_DeleteUDType", Unit::Bytes, StatisticKind::Counter),
    ("proxy_request_bytes_yb_master_MasterService_DeleteUniverseReplication", Unit::Bytes, StatisticKind::Counter),
    ("proxy_request_bytes_yb_master_MasterService_DumpState", Unit::Bytes, StatisticKind::Counter),
    ("proxy_request_bytes_yb_master_MasterService_FlushTables", Unit::Bytes, StatisticKind::Counter),
    ("proxy_request_bytes_yb_master_MasterService_GetBackfillJobs", Unit::Bytes, StatisticKind::Counter),
    ("proxy_request_bytes_yb_master_MasterService_GetCDCStream", Unit::Bytes, StatisticKind::Counter),
    ("proxy_request_bytes_yb_master_MasterService_GetColocatedTabletSchema", Unit::Bytes, StatisticKind::Counter),
    ("proxy_request_bytes_yb_master_MasterService_GetLeaderBlacklistCompletion", Unit::Bytes, StatisticKind::Counter),
    ("proxy_request_bytes_yb_master_MasterService_GetLoadBalancerState", Unit::Bytes, StatisticKind::Counter),
    ("proxy_request_bytes_yb_master_MasterService_GetLoadMoveCompletion", Unit::Bytes, StatisticKind::Counter),
    ("proxy_request_bytes_yb_master_MasterService_GetMasterClusterConfig", Unit::Bytes, StatisticKind::Counter),
    ("proxy_request_bytes_yb_master_MasterService_GetMasterRegistration", Unit::Bytes, StatisticKind::Counter),
    ("proxy_request_bytes_yb_master_MasterService_GetNamespaceInfo", Unit::Bytes, StatisticKind::Counter),
    ("proxy_request_bytes_yb_master_MasterService_GetPermissions", Unit::Bytes, StatisticKind::Counter),
    ("proxy_request_bytes_yb_master_MasterService_GetTableLocations", Unit::Bytes, StatisticKind::Counter),
    ("proxy_request_bytes_yb_master_MasterService_GetTableSchema", Unit::Bytes, StatisticKind::Counter),
    ("proxy_request_bytes_yb_master_MasterService_GetTabletLocations", Unit::Bytes, StatisticKind::Counter),
    ("proxy_request_bytes_yb_master_MasterService_GetUDTypeInfo", Unit::Bytes, StatisticKind::Counter),
    ("proxy_request_bytes_yb_master_MasterService_GetUniverseKeyRegistry", Unit::Bytes, StatisticKind::Counter),
    ("proxy_request_bytes_yb_master_MasterService_GetUniverseReplication", Unit::Bytes, StatisticKind::Counter),
    ("proxy_request_bytes_yb_master_MasterService_GetYsqlCatalogConfig", Unit::Bytes, StatisticKind::Counter),
    ("proxy_request_bytes_yb_master_MasterService_GrantRevokePermission", Unit::Bytes, StatisticKind::Counter),
    ("proxy_request_bytes_yb_master_MasterService_GrantRevokeRole", Unit::Bytes, StatisticKind::Counter),
    ("proxy_request_bytes_yb_master_MasterService_HasUniverseKeyInMemory", Unit::Bytes, StatisticKind::Counter),
    ("proxy_request_bytes_yb_master_MasterService_IsAlterTableDone", Unit::Bytes, StatisticKind::Counter),
    ("proxy_request_bytes_yb_master_MasterService_IsCreateNamespaceDone", Unit::Bytes, StatisticKind::Counter),
    ("proxy_request_bytes_yb_master_MasterService_IsCreateTableDone", Unit::Bytes, StatisticKind::Counter),
    ("proxy_request_bytes_yb_master_MasterService_IsDeleteNamespaceDone", Unit::Bytes, StatisticKind::Counter),
    ("proxy_request_bytes_yb_master_MasterService_IsDeleteTableDone", Unit::Bytes, StatisticKind::Counter),
    ("proxy_request_bytes_yb_master_MasterService_IsEncryptionEnabled", Unit::Bytes, StatisticKind::Counter),
    ("proxy_request_bytes_yb_master_MasterService_IsFlushTablesDone", Unit::Bytes, StatisticKind::Counter),
    ("proxy_request_bytes_yb_master_MasterService_IsInitDbDone", Unit::Bytes, StatisticKind::Counter),
    ("proxy_request_bytes_yb_master_MasterService_IsLoadBalanced", Unit::Bytes, StatisticKind::Counter),
    ("proxy_request_bytes_yb_master_MasterService_IsLoadBalancerIdle", Unit::Bytes, StatisticKind::Counter),
    ("proxy_request_bytes_yb_master_MasterService_IsMasterLeaderServiceReady", Unit::Bytes, StatisticKind::Counter),
    ("proxy_request_bytes_yb_master_MasterService_IsSetupUniverseReplicationDone", Unit::Bytes, StatisticKind::Counter),
    ("proxy_request_bytes_yb_master_MasterService_IsTruncateTableDone", Unit::Bytes, StatisticKind::Counter),
    ("proxy_request_bytes_yb_master_MasterService_LaunchBackfillIndexForTable", Unit::Bytes, StatisticKind::Counter),
    ("proxy_request_bytes_yb_master_MasterService_ListCDCStreams", Unit::Bytes, StatisticKind::Counter),
    ("proxy_request_bytes_yb_master_MasterService_ListLiveTabletServers", Unit::Bytes, StatisticKind::Counter),
    ("proxy_request_bytes_yb_master_MasterService_ListMasterRaftPeers", Unit::Bytes, StatisticKind::Counter),
    ("proxy_request_bytes_yb_master_MasterService_ListMasters", Unit::Bytes, StatisticKind::Counter),
    ("proxy_request_bytes_yb_master_MasterService_ListNamespace", Unit::Bytes, StatisticKind::Counter),
    ("proxy_request_bytes_yb_master_MasterService_ListTablegroups", Unit::Bytes, StatisticKind::Counter),
    ("proxy_request_bytes_yb_master_MasterService_ListTables", Unit::Bytes, StatisticKind::Counter),
    ("proxy_request_bytes_yb_master_MasterService_ListTabletServers", Unit::Bytes, StatisticKind::Counter),
    ("proxy_request_bytes_yb_master_MasterService_ListUDTypes", Unit::Bytes, StatisticKind::Counter),
    ("proxy_request_bytes_yb_master_MasterService_RedisConfigGet", Unit::Bytes, StatisticKind::Counter),
    ("proxy_request_bytes_yb_master_MasterService_RedisConfigSet", Unit::Bytes, StatisticKind::Counter),
    ("proxy_request_bytes_yb_master_MasterService_RemoveMasterUpdate", Unit::Bytes, StatisticKind::Counter),
    ("proxy_request_bytes_yb_master_MasterService_ReservePgsqlOids", Unit::Bytes, StatisticKind::Counter),
    ("proxy_request_bytes_yb_master_MasterService_SetPreferredZone", Unit::Bytes, StatisticKind::Counter),
    ("proxy_request_bytes_yb_master_MasterService_SetUniverseReplication", Unit::Bytes, StatisticKind::Counter),
    ("proxy_request_bytes_yb_master_MasterService_SetupUniverseReplication", Unit::Bytes, StatisticKind::Counter),
    ("proxy_request_bytes_yb_master_MasterService_SplitTablet", Unit::Bytes, StatisticKind::Counter),
    ("proxy_request_bytes_yb_master_MasterService_TSHeartbeat", Unit::Bytes, StatisticKind::Counter),
    ("proxy_request_bytes_yb_master_MasterService_TruncateTable", Unit::Bytes, StatisticKind::Counter),
    ("proxy_request_bytes_yb_master_MasterService_UpdateCDCStream", Unit::Bytes, StatisticKind::Counter),
    ("proxy_request_bytes_yb_server_GenericService_FlushCoverage", Unit::Bytes, StatisticKind::Counter),
    ("proxy_request_bytes_yb_server_GenericService_GetAutoFlagsConfigVersion", Unit::Bytes, StatisticKind::Counter),
    ("proxy_request_bytes_yb_server_GenericService_GetFlag", Unit::Bytes, StatisticKind::Counter),
    ("proxy_request_bytes_yb_server_GenericService_GetStatus", Unit::Bytes, StatisticKind::Counter),
    ("proxy_request_bytes_yb_server_GenericService_Ping", Unit::Bytes, StatisticKind::Counter),
    ("proxy_request_bytes_yb_server_GenericService_RefreshFlags", Unit::Bytes, StatisticKind::Counter),
    ("proxy_request_bytes_yb_server_GenericService_ReloadCertificates", Unit::Bytes, StatisticKind::Counter),
    ("proxy_request_bytes_yb_server_GenericService_ServerClock", Unit::Bytes, StatisticKind::Counter),
    ("proxy_request_bytes_yb_server_GenericService_SetFlag", Unit::Bytes, StatisticKind::Counter),
    ("proxy_request_bytes_yb_tserver_RemoteBootstrapService_BeginRemoteBootstrapSession", Unit::Bytes, StatisticKind::Counter), // 2.15.2.0
    ("proxy_request_bytes_yb_tserver_RemoteBootstrapService_ChangePeerRole", Unit::Bytes, StatisticKind::Counter), // 2.17.0.0
    ("proxy_request_bytes_yb_tserver_RemoteBootstrapService_CheckRemoteBootstrapSessionActive", Unit::Bytes, StatisticKind::Counter),
    ("proxy_request_bytes_yb_tserver_RemoteBootstrapService_EndRemoteBootstrapSession", Unit::Bytes, StatisticKind::Counter), // 2.15.2.0
    ("proxy_request_bytes_yb_tserver_RemoteBootstrapService_FetchData", Unit::Bytes, StatisticKind::Counter), // 2.15.2.0
    ("proxy_request_bytes_yb_tserver_RemoteBootstrapService_KeepLogAnchorAlive", Unit::Bytes, StatisticKind::Counter), // 2.17.0.0
    ("proxy_request_bytes_yb_tserver_RemoteBootstrapService_RegisterLogAnchor", Unit::Bytes, StatisticKind::Counter), // 2.17.0.0
    ("proxy_request_bytes_yb_tserver_RemoteBootstrapService_RemoveRemoteBootstrapSession", Unit::Bytes, StatisticKind::Counter), // 2.17.0.0
    ("proxy_request_bytes_yb_tserver_RemoteBootstrapService_RemoveSession", Unit::Bytes, StatisticKind::Counter), // 2.15.2.0
    ("proxy_request_bytes_yb_tserver_RemoteBootstrapService_UnregisterLogAnchor", Unit::Bytes, StatisticKind::Counter), // 2.17.0.0
    ("proxy_request_bytes_yb_tserver_RemoteBootstrapService_UpdateLogAnchor", Unit::Bytes, StatisticKind::Counter), // 2.17.0.0
    ("proxy_request_bytes_yb_tserver_TabletServerAdminService_AddTableToTablet", Unit::Bytes, StatisticKind::Counter),
    ("proxy_request_bytes_yb_tserver_TabletServerAdminService_AlterSchema", Unit::Bytes, StatisticKind::Counter),
    ("proxy_request_bytes_yb_tserver_TabletServerAdminService_BackfillDone", Unit::Bytes, StatisticKind::Counter),
    ("proxy_request_bytes_yb_tserver_TabletServerAdminService_BackfillIndex", Unit::Bytes, StatisticKind::Counter),
    ("proxy_request_bytes_yb_tserver_TabletServerAdminService_CopartitionTable", Unit::Bytes, StatisticKind::Counter),
    ("proxy_request_bytes_yb_tserver_TabletServerAdminService_CountIntents", Unit::Bytes, StatisticKind::Counter),
    ("proxy_request_bytes_yb_tserver_TabletServerAdminService_CreateTablet", Unit::Bytes, StatisticKind::Counter),
    ("proxy_request_bytes_yb_tserver_TabletServerAdminService_DeleteTablet", Unit::Bytes, StatisticKind::Counter),
    ("proxy_request_bytes_yb_tserver_TabletServerAdminService_FlushTablets", Unit::Bytes, StatisticKind::Counter),
    ("proxy_request_bytes_yb_tserver_TabletServerAdminService_GetSafeTime", Unit::Bytes, StatisticKind::Counter),
    ("proxy_request_bytes_yb_tserver_TabletServerAdminService_PrepareDeleteTransactionTablet", Unit::Bytes, StatisticKind::Counter), // 2.17
    ("proxy_request_bytes_yb_tserver_TabletServerAdminService_RemoveTableFromTablet", Unit::Bytes, StatisticKind::Counter),
    ("proxy_request_bytes_yb_tserver_TabletServerAdminService_SplitTablet", Unit::Bytes, StatisticKind::Counter),
    ("proxy_request_bytes_yb_tserver_TabletServerAdminService_TestRetry", Unit::Bytes, StatisticKind::Counter),
    ("proxy_request_bytes_yb_tserver_TabletServerAdminService_UpdateTransactionTablesVersion", Unit::Bytes, StatisticKind::Counter), // 2.17
    ("proxy_request_bytes_yb_tserver_TabletServerAdminService_UpgradeYsql", Unit::Bytes, StatisticKind::Counter),
    ("proxy_request_bytes_yb_tserver_TabletServerBackupService_TabletSnapshotOp", Unit::Bytes, StatisticKind::Counter),
    ("proxy_request_bytes_yb_tserver_TabletServerService_AbortTransaction", Unit::Bytes, StatisticKind::Counter),
    ("proxy_request_bytes_yb_tserver_TabletServerService_Checksum", Unit::Bytes, StatisticKind::Counter),
    ("proxy_request_bytes_yb_tserver_TabletServerService_GetLogLocation", Unit::Bytes, StatisticKind::Counter),
    ("proxy_request_bytes_yb_tserver_TabletServerService_GetMasterAddresses", Unit::Bytes, StatisticKind::Counter),
    ("proxy_request_bytes_yb_tserver_TabletServerService_GetSharedData", Unit::Bytes, StatisticKind::Counter),
    ("proxy_request_bytes_yb_tserver_TabletServerService_GetSplitKey", Unit::Bytes, StatisticKind::Counter),
    ("proxy_request_bytes_yb_tserver_TabletServerService_GetTabletStatus", Unit::Bytes, StatisticKind::Counter),
    ("proxy_request_bytes_yb_tserver_TabletServerService_GetTransactionStatus", Unit::Bytes, StatisticKind::Counter),
    ("proxy_request_bytes_yb_tserver_TabletServerService_GetTransactionStatusAtParticipant", Unit::Bytes, StatisticKind::Counter),
    ("proxy_request_bytes_yb_tserver_TabletServerService_GetTserverCatalogVersionInfo", Unit::Bytes, StatisticKind::Counter),
    ("proxy_request_bytes_yb_tserver_TabletServerService_ImportData", Unit::Bytes, StatisticKind::Counter),
    ("proxy_request_bytes_yb_tserver_TabletServerService_IsTabletServerReady", Unit::Bytes, StatisticKind::Counter),
    ("proxy_request_bytes_yb_tserver_TabletServerService_ListMasterServers", Unit::Bytes, StatisticKind::Counter), // 2.17.2
    ("proxy_request_bytes_yb_tserver_TabletServerService_ListTablets", Unit::Bytes, StatisticKind::Counter),
    ("proxy_request_bytes_yb_tserver_TabletServerService_ListTabletsForTabletServer", Unit::Bytes, StatisticKind::Counter),
    ("proxy_request_bytes_yb_tserver_TabletServerService_NoOp", Unit::Bytes, StatisticKind::Counter),
    ("proxy_request_bytes_yb_tserver_TabletServerService_ProbeTransactionDeadlock", Unit::Bytes, StatisticKind::Counter),
    ("proxy_request_bytes_yb_tserver_TabletServerService_Publish", Unit::Bytes, StatisticKind::Counter),
    ("proxy_request_bytes_yb_tserver_TabletServerService_Read", Unit::Bytes, StatisticKind::Counter),
    ("proxy_request_bytes_yb_tserver_TabletServerService_TakeTransaction", Unit::Bytes, StatisticKind::Counter),
    ("proxy_request_bytes_yb_tserver_TabletServerService_Truncate", Unit::Bytes, StatisticKind::Counter),
    ("proxy_request_bytes_yb_tserver_TabletServerService_UpdateTransaction", Unit::Bytes, StatisticKind::Counter),
    ("proxy_request_bytes_yb_tserver_TabletServerService_UpdateTransactionStatusLocation", Unit::Bytes, StatisticKind::Counter),
    ("proxy_request_bytes_yb_tserver_TabletServerService_UpdateTransactionWaitingForStatus", Unit::Bytes, StatisticKind::Counter),
    ("proxy_request_bytes_yb_tserver_TabletServerService_VerifyTableRowRange", Unit::Bytes, StatisticKind::Counter),
    ("proxy_request_bytes_yb_tserver_TabletServerService_Write", Unit::Bytes, StatisticKind::Counter),
    ("proxy_response_bytes_yb_consensus_ConsensusService_ChangeConfig", Unit::Bytes, StatisticKind::Counter),
    ("proxy_response_bytes_yb_consensus_ConsensusService_GetConsensusState", Unit::Bytes, StatisticKind::Counter),
    ("proxy_response_bytes_yb_consensus_ConsensusService_GetLastOpId", Unit::Bytes, StatisticKind::Counter),
    ("proxy_response_bytes_yb_consensus_ConsensusService_GetNodeInstance", Unit::Bytes, StatisticKind::Counter),
    ("proxy_response_bytes_yb_consensus_ConsensusService_LeaderElectionLost", Unit::Bytes, StatisticKind::Counter),
    ("proxy_response_bytes_yb_consensus_ConsensusService_LeaderStepDown", Unit::Bytes, StatisticKind::Counter),
    ("proxy_response_bytes_yb_consensus_ConsensusService_MultiRaftUpdateConsensus", Unit::Bytes, StatisticKind::Counter),
    ("proxy_response_bytes_yb_consensus_ConsensusService_RequestConsensusVote", Unit::Bytes, StatisticKind::Counter),
    ("proxy_response_bytes_yb_consensus_ConsensusService_RunLeaderElection", Unit::Bytes, StatisticKind::Counter),
    ("proxy_response_bytes_yb_consensus_ConsensusService_StartRemoteBootstrap", Unit::Bytes, StatisticKind::Counter),
    ("proxy_response_bytes_yb_consensus_ConsensusService_UnsafeChangeConfig", Unit::Bytes, StatisticKind::Counter),
    ("proxy_response_bytes_yb_consensus_ConsensusService_UpdateConsensus", Unit::Bytes, StatisticKind::Counter),
    ("proxy_response_bytes_yb_master_MasterAdmin_AddTransactionStatusTablet", Unit::Bytes, StatisticKind::Counter),
    ("proxy_response_bytes_yb_master_MasterAdmin_CheckIfPitrActive", Unit::Bytes, StatisticKind::Counter),
    ("proxy_response_bytes_yb_master_MasterAdmin_CompactSysCatalog", Unit::Bytes, StatisticKind::Counter),
    ("proxy_response_bytes_yb_master_MasterAdmin_CreateTransactionStatusTable", Unit::Bytes, StatisticKind::Counter),
    ("proxy_response_bytes_yb_master_MasterAdmin_DdlLog", Unit::Bytes, StatisticKind::Counter),
    ("proxy_response_bytes_yb_master_MasterAdmin_DeleteNotServingTablet", Unit::Bytes, StatisticKind::Counter),
    ("proxy_response_bytes_yb_master_MasterAdmin_DisableTabletSplitting", Unit::Bytes, StatisticKind::Counter),
    ("proxy_response_bytes_yb_master_MasterAdmin_FlushSysCatalog", Unit::Bytes, StatisticKind::Counter),
    ("proxy_response_bytes_yb_master_MasterAdmin_FlushTables", Unit::Bytes, StatisticKind::Counter),
    ("proxy_response_bytes_yb_master_MasterAdmin_IsFlushTablesDone", Unit::Bytes, StatisticKind::Counter),
    ("proxy_response_bytes_yb_master_MasterAdmin_IsInitDbDone", Unit::Bytes, StatisticKind::Counter),
    ("proxy_response_bytes_yb_master_MasterAdmin_IsTabletSplittingComplete", Unit::Bytes, StatisticKind::Counter),
    ("proxy_response_bytes_yb_master_MasterAdmin_SplitTablet", Unit::Bytes, StatisticKind::Counter),
    ("proxy_response_bytes_yb_master_MasterClient_GetTableLocations", Unit::Bytes, StatisticKind::Counter),
    ("proxy_response_bytes_yb_master_MasterClient_GetTabletLocations", Unit::Bytes, StatisticKind::Counter),
    ("proxy_response_bytes_yb_master_MasterClient_GetTransactionStatusTablets", Unit::Bytes, StatisticKind::Counter),
    ("proxy_response_bytes_yb_master_MasterClient_GetYsqlCatalogConfig", Unit::Bytes, StatisticKind::Counter),
    ("proxy_response_bytes_yb_master_MasterClient_RedisConfigGet", Unit::Bytes, StatisticKind::Counter),
    ("proxy_response_bytes_yb_master_MasterClient_RedisConfigSet", Unit::Bytes, StatisticKind::Counter),
    ("proxy_response_bytes_yb_master_MasterClient_ReservePgsqlOids", Unit::Bytes, StatisticKind::Counter),
    ("proxy_response_bytes_yb_master_MasterCluster_AreLeadersOnPreferredOnly", Unit::Bytes, StatisticKind::Counter),
    ("proxy_response_bytes_yb_master_MasterCluster_ChangeLoadBalancerState", Unit::Bytes, StatisticKind::Counter),
    ("proxy_response_bytes_yb_master_MasterCluster_ChangeMasterClusterConfig", Unit::Bytes, StatisticKind::Counter),
    ("proxy_response_bytes_yb_master_MasterCluster_DumpState", Unit::Bytes, StatisticKind::Counter),
    ("proxy_response_bytes_yb_master_MasterCluster_GetAutoFlagsConfig", Unit::Bytes, StatisticKind::Counter),
    ("proxy_response_bytes_yb_master_MasterCluster_GetLeaderBlacklistCompletion", Unit::Bytes, StatisticKind::Counter),
    ("proxy_response_bytes_yb_master_MasterCluster_GetLoadBalancerState", Unit::Bytes, StatisticKind::Counter),
    ("proxy_response_bytes_yb_master_MasterCluster_GetLoadMoveCompletion", Unit::Bytes, StatisticKind::Counter),
    ("proxy_response_bytes_yb_master_MasterCluster_GetMasterClusterConfig", Unit::Bytes, StatisticKind::Counter),
    ("proxy_response_bytes_yb_master_MasterCluster_GetMasterRegistration", Unit::Bytes, StatisticKind::Counter),
    ("proxy_response_bytes_yb_master_MasterCluster_IsLoadBalanced", Unit::Bytes, StatisticKind::Counter),
    ("proxy_response_bytes_yb_master_MasterCluster_IsLoadBalancerIdle", Unit::Bytes, StatisticKind::Counter),
    ("proxy_response_bytes_yb_master_MasterCluster_IsMasterLeaderServiceReady", Unit::Bytes, StatisticKind::Counter),
    ("proxy_response_bytes_yb_master_MasterCluster_ListLiveTabletServers", Unit::Bytes, StatisticKind::Counter),
    ("proxy_response_bytes_yb_master_MasterCluster_ListMasterRaftPeers", Unit::Bytes, StatisticKind::Counter),
    ("proxy_response_bytes_yb_master_MasterCluster_ListMasters", Unit::Bytes, StatisticKind::Counter),
    ("proxy_response_bytes_yb_master_MasterCluster_ListTabletServers", Unit::Bytes, StatisticKind::Counter),
    ("proxy_response_bytes_yb_master_MasterCluster_PromoteAutoFlags", Unit::Bytes, StatisticKind::Counter), // 2.17
    ("proxy_response_bytes_yb_master_MasterCluster_RemovedMasterUpdate", Unit::Bytes, StatisticKind::Counter),
    ("proxy_response_bytes_yb_master_MasterCluster_SetPreferredZones", Unit::Bytes, StatisticKind::Counter),
    ("proxy_response_bytes_yb_master_MasterDcl_AlterRole", Unit::Bytes, StatisticKind::Counter),
    ("proxy_response_bytes_yb_master_MasterDcl_CreateRole", Unit::Bytes, StatisticKind::Counter),
    ("proxy_response_bytes_yb_master_MasterDcl_DeleteRole", Unit::Bytes, StatisticKind::Counter),
    ("proxy_response_bytes_yb_master_MasterDcl_GetPermissions", Unit::Bytes, StatisticKind::Counter),
    ("proxy_response_bytes_yb_master_MasterDcl_GrantRevokePermission", Unit::Bytes, StatisticKind::Counter),
    ("proxy_response_bytes_yb_master_MasterDcl_GrantRevokeRole", Unit::Bytes, StatisticKind::Counter),
    ("proxy_response_bytes_yb_master_MasterDdl_AlterNamespace", Unit::Bytes, StatisticKind::Counter),
    ("proxy_response_bytes_yb_master_MasterDdl_AlterTable", Unit::Bytes, StatisticKind::Counter),
    ("proxy_response_bytes_yb_master_MasterDdl_BackfillIndex", Unit::Bytes, StatisticKind::Counter),
    ("proxy_response_bytes_yb_master_MasterDdl_CreateNamespace", Unit::Bytes, StatisticKind::Counter),
    ("proxy_response_bytes_yb_master_MasterDdl_CreateTable", Unit::Bytes, StatisticKind::Counter),
    ("proxy_response_bytes_yb_master_MasterDdl_CreateTablegroup", Unit::Bytes, StatisticKind::Counter),
    ("proxy_response_bytes_yb_master_MasterDdl_CreateUDType", Unit::Bytes, StatisticKind::Counter),
    ("proxy_response_bytes_yb_master_MasterDdl_DeleteNamespace", Unit::Bytes, StatisticKind::Counter),
    ("proxy_response_bytes_yb_master_MasterDdl_DeleteTable", Unit::Bytes, StatisticKind::Counter),
    ("proxy_response_bytes_yb_master_MasterDdl_DeleteTablegroup", Unit::Bytes, StatisticKind::Counter),
    ("proxy_response_bytes_yb_master_MasterDdl_DeleteUDType", Unit::Bytes, StatisticKind::Counter),
    ("proxy_response_bytes_yb_master_MasterDdl_GetBackfillJobs", Unit::Bytes, StatisticKind::Counter),
    ("proxy_response_bytes_yb_master_MasterDdl_GetColocatedTabletSchema", Unit::Bytes, StatisticKind::Counter),
    ("proxy_response_bytes_yb_master_MasterDdl_GetNamespaceInfo", Unit::Bytes, StatisticKind::Counter),
    ("proxy_response_bytes_yb_master_MasterDdl_GetTableDiskSize", Unit::Bytes, StatisticKind::Counter),
    ("proxy_response_bytes_yb_master_MasterDdl_GetTableSchema", Unit::Bytes, StatisticKind::Counter),
    ("proxy_response_bytes_yb_master_MasterDdl_GetTablegroupSchema", Unit::Bytes, StatisticKind::Counter),
    ("proxy_response_bytes_yb_master_MasterDdl_GetUDTypeInfo", Unit::Bytes, StatisticKind::Counter),
    ("proxy_response_bytes_yb_master_MasterDdl_IsAlterTableDone", Unit::Bytes, StatisticKind::Counter),
    ("proxy_response_bytes_yb_master_MasterDdl_IsCreateNamespaceDone", Unit::Bytes, StatisticKind::Counter),
    ("proxy_response_bytes_yb_master_MasterDdl_IsCreateTableDone", Unit::Bytes, StatisticKind::Counter),
    ("proxy_response_bytes_yb_master_MasterDdl_IsDeleteNamespaceDone", Unit::Bytes, StatisticKind::Counter),
    ("proxy_response_bytes_yb_master_MasterDdl_IsDeleteTableDone", Unit::Bytes, StatisticKind::Counter),
    ("proxy_response_bytes_yb_master_MasterDdl_IsTruncateTableDone", Unit::Bytes, StatisticKind::Counter),
    ("proxy_response_bytes_yb_master_MasterDdl_LaunchBackfillIndexForTable", Unit::Bytes, StatisticKind::Counter),
    ("proxy_response_bytes_yb_master_MasterDdl_ListNamespaces", Unit::Bytes, StatisticKind::Counter),
    ("proxy_response_bytes_yb_master_MasterDdl_ListTablegroups", Unit::Bytes, StatisticKind::Counter),
    ("proxy_response_bytes_yb_master_MasterDdl_ListTables", Unit::Bytes, StatisticKind::Counter),
    ("proxy_response_bytes_yb_master_MasterDdl_ListUDTypes", Unit::Bytes, StatisticKind::Counter),
    ("proxy_response_bytes_yb_master_MasterDdl_TruncateTable", Unit::Bytes, StatisticKind::Counter),
    ("proxy_response_bytes_yb_master_MasterEncryption_AddUniverseKeys", Unit::Bytes, StatisticKind::Counter),
    ("proxy_response_bytes_yb_master_MasterEncryption_ChangeEncryptionInfo", Unit::Bytes, StatisticKind::Counter),
    ("proxy_response_bytes_yb_master_MasterEncryption_GetUniverseKeyRegistry", Unit::Bytes, StatisticKind::Counter),
    ("proxy_response_bytes_yb_master_MasterEncryption_HasUniverseKeyInMemory", Unit::Bytes, StatisticKind::Counter),
    ("proxy_response_bytes_yb_master_MasterEncryption_IsEncryptionEnabled", Unit::Bytes, StatisticKind::Counter),
    ("proxy_response_bytes_yb_master_MasterHeartbeat_TSHeartbeat", Unit::Bytes, StatisticKind::Counter),
    ("proxy_response_bytes_yb_master_MasterReplication_AlterUniverseReplication", Unit::Bytes, StatisticKind::Counter),
    ("proxy_response_bytes_yb_master_MasterReplication_ChangeXClusterRole", Unit::Bytes, StatisticKind::Counter), // 2.17
    ("proxy_response_bytes_yb_master_MasterReplication_CreateCDCStream", Unit::Bytes, StatisticKind::Counter),
    ("proxy_response_bytes_yb_master_MasterReplication_DeleteCDCStream", Unit::Bytes, StatisticKind::Counter),
    ("proxy_response_bytes_yb_master_MasterReplication_DeleteUniverseReplication", Unit::Bytes, StatisticKind::Counter),
    ("proxy_response_bytes_yb_master_MasterReplication_GetCDCDBStreamInfo", Unit::Bytes, StatisticKind::Counter),
    ("proxy_response_bytes_yb_master_MasterReplication_GetCDCStream", Unit::Bytes, StatisticKind::Counter),
    ("proxy_response_bytes_yb_master_MasterReplication_GetReplicationStatus", Unit::Bytes, StatisticKind::Counter), // 2.17
    ("proxy_response_bytes_yb_master_MasterReplication_GetTableSchemaFromSysCatalog", Unit::Bytes, StatisticKind::Counter), // 2.17.2
    ("proxy_response_bytes_yb_master_MasterReplication_GetUDTypeMetadata", Unit::Bytes, StatisticKind::Counter),
    ("proxy_response_bytes_yb_master_MasterReplication_GetUniverseReplication", Unit::Bytes, StatisticKind::Counter),
    ("proxy_response_bytes_yb_master_MasterReplication_GetXClusterEstimatedDataLoss", Unit::Bytes, StatisticKind::Counter), // 2.17
    ("proxy_response_bytes_yb_master_MasterReplication_GetXClusterSafeTime", Unit::Bytes, StatisticKind::Counter), // 2.17
    ("proxy_response_bytes_yb_master_MasterReplication_IsBootstrapRequired", Unit::Bytes, StatisticKind::Counter),
    ("proxy_response_bytes_yb_master_MasterReplication_IsSetupUniverseReplicationDone", Unit::Bytes, StatisticKind::Counter),
    ("proxy_response_bytes_yb_master_MasterReplication_ListCDCStreams", Unit::Bytes, StatisticKind::Counter),
    ("proxy_response_bytes_yb_master_MasterReplication_SetUniverseReplicationEnabled", Unit::Bytes, StatisticKind::Counter),
    ("proxy_response_bytes_yb_master_MasterReplication_SetupNSUniverseReplication", Unit::Bytes, StatisticKind::Counter),
    ("proxy_response_bytes_yb_master_MasterReplication_SetupUniverseReplication", Unit::Bytes, StatisticKind::Counter),
    ("proxy_response_bytes_yb_master_MasterReplication_UpdateCDCStream", Unit::Bytes, StatisticKind::Counter),
    ("proxy_response_bytes_yb_master_MasterReplication_UpdateConsumerOnProducerMetadata", Unit::Bytes, StatisticKind::Counter),
    ("proxy_response_bytes_yb_master_MasterReplication_UpdateConsumerOnProducerSplit", Unit::Bytes, StatisticKind::Counter),
    ("proxy_response_bytes_yb_master_MasterReplication_ValidateReplicationInfo", Unit::Bytes, StatisticKind::Counter),
    ("proxy_response_bytes_yb_master_MasterReplication_WaitForReplicationDrain", Unit::Bytes, StatisticKind::Counter),
    ("proxy_response_bytes_yb_master_MasterService_AddUniverseKeys", Unit::Bytes, StatisticKind::Counter),
    ("proxy_response_bytes_yb_master_MasterService_AlterNamespace", Unit::Bytes, StatisticKind::Counter),
    ("proxy_response_bytes_yb_master_MasterService_AlterRole", Unit::Bytes, StatisticKind::Counter),
    ("proxy_response_bytes_yb_master_MasterService_AlterTable", Unit::Bytes, StatisticKind::Counter),
    ("proxy_response_bytes_yb_master_MasterService_AlterUniverseReplication", Unit::Bytes, StatisticKind::Counter),
    ("proxy_response_bytes_yb_master_MasterService_AreLoadersOnPreferredOnly", Unit::Bytes, StatisticKind::Counter),
    ("proxy_response_bytes_yb_master_MasterService_BackfillIndex", Unit::Bytes, StatisticKind::Counter),
    ("proxy_response_bytes_yb_master_MasterService_ChangeEncryptionInfo", Unit::Bytes, StatisticKind::Counter),
    ("proxy_response_bytes_yb_master_MasterService_ChangeLoadBalancerState", Unit::Bytes, StatisticKind::Counter),
    ("proxy_response_bytes_yb_master_MasterService_ChangeMasterClusterConfig", Unit::Bytes, StatisticKind::Counter),
    ("proxy_response_bytes_yb_master_MasterService_CreateCDCStream", Unit::Bytes, StatisticKind::Counter),
    ("proxy_response_bytes_yb_master_MasterService_CreateNamespace", Unit::Bytes, StatisticKind::Counter),
    ("proxy_response_bytes_yb_master_MasterService_CreateRole", Unit::Bytes, StatisticKind::Counter),
    ("proxy_response_bytes_yb_master_MasterService_CreateTable", Unit::Bytes, StatisticKind::Counter),
    ("proxy_response_bytes_yb_master_MasterService_CreateTablegroup", Unit::Bytes, StatisticKind::Counter),
    ("proxy_response_bytes_yb_master_MasterService_CreateTransactionStatusTable", Unit::Bytes, StatisticKind::Counter),
    ("proxy_response_bytes_yb_master_MasterService_CreateUDType", Unit::Bytes, StatisticKind::Counter),
    ("proxy_response_bytes_yb_master_MasterService_DdlLog", Unit::Bytes, StatisticKind::Counter),
    ("proxy_response_bytes_yb_master_MasterService_DeleteCDCStream", Unit::Bytes, StatisticKind::Counter),
    ("proxy_response_bytes_yb_master_MasterService_DeleteNamespace", Unit::Bytes, StatisticKind::Counter),
    ("proxy_response_bytes_yb_master_MasterService_DeleteNotServingTablet", Unit::Bytes, StatisticKind::Counter),
    ("proxy_response_bytes_yb_master_MasterService_DeleteRole", Unit::Bytes, StatisticKind::Counter),
    ("proxy_response_bytes_yb_master_MasterService_DeleteTable", Unit::Bytes, StatisticKind::Counter),
    ("proxy_response_bytes_yb_master_MasterService_DeleteTablegroup", Unit::Bytes, StatisticKind::Counter),
    ("proxy_response_bytes_yb_master_MasterService_DeleteUDType", Unit::Bytes, StatisticKind::Counter),
    ("proxy_response_bytes_yb_master_MasterService_DeleteUniverseReplication", Unit::Bytes, StatisticKind::Counter),
    ("proxy_response_bytes_yb_master_MasterService_DumpState", Unit::Bytes, StatisticKind::Counter),
    ("proxy_response_bytes_yb_master_MasterService_FlushTables", Unit::Bytes, StatisticKind::Counter),
    ("proxy_response_bytes_yb_master_MasterService_GetBackfillJobs", Unit::Bytes, StatisticKind::Counter),
    ("proxy_response_bytes_yb_master_MasterService_GetCDCStream", Unit::Bytes, StatisticKind::Counter),
    ("proxy_response_bytes_yb_master_MasterService_GetColocatedTabletSchema", Unit::Bytes, StatisticKind::Counter),
    ("proxy_response_bytes_yb_master_MasterService_GetLeaderBlacklistCompletion", Unit::Bytes, StatisticKind::Counter),
    ("proxy_response_bytes_yb_master_MasterService_GetLoadBalancerState", Unit::Bytes, StatisticKind::Counter),
    ("proxy_response_bytes_yb_master_MasterService_GetLoadMoveCompletion", Unit::Bytes, StatisticKind::Counter),
    ("proxy_response_bytes_yb_master_MasterService_GetMasterClusterConfig", Unit::Bytes, StatisticKind::Counter),
    ("proxy_response_bytes_yb_master_MasterService_GetMasterRegistration", Unit::Bytes, StatisticKind::Counter),
    ("proxy_response_bytes_yb_master_MasterService_GetNamespaceInfo", Unit::Bytes, StatisticKind::Counter),
    ("proxy_response_bytes_yb_master_MasterService_GetPermissions", Unit::Bytes, StatisticKind::Counter),
    ("proxy_response_bytes_yb_master_MasterService_GetTableLocations", Unit::Bytes, StatisticKind::Counter),
    ("proxy_response_bytes_yb_master_MasterService_GetTableSchema", Unit::Bytes, StatisticKind::Counter),
    ("proxy_response_bytes_yb_master_MasterService_GetTabletLocations", Unit::Bytes, StatisticKind::Counter),
    ("proxy_response_bytes_yb_master_MasterService_GetUDTypeInfo", Unit::Bytes, StatisticKind::Counter),
    ("proxy_response_bytes_yb_master_MasterService_GetUniverseKeyRegistry", Unit::Bytes, StatisticKind::Counter),
    ("proxy_response_bytes_yb_master_MasterService_GetUniverseReplication", Unit::Bytes, StatisticKind::Counter),
    ("proxy_response_bytes_yb_master_MasterService_GetYsqlCatalogConfig", Unit::Bytes, StatisticKind::Counter),
    ("proxy_response_bytes_yb_master_MasterService_GrantRevokePermission", Unit::Bytes, StatisticKind::Counter),
    ("proxy_response_bytes_yb_master_MasterService_GrantRevokeRole", Unit::Bytes, StatisticKind::Counter),
    ("proxy_response_bytes_yb_master_MasterService_HasUniverseKeyInMemory", Unit::Bytes, StatisticKind::Counter),
    ("proxy_response_bytes_yb_master_MasterService_IsAlterTableDone", Unit::Bytes, StatisticKind::Counter),
    ("proxy_response_bytes_yb_master_MasterService_IsCreateNamespaceDone", Unit::Bytes, StatisticKind::Counter),
    ("proxy_response_bytes_yb_master_MasterService_IsCreateTableDone", Unit::Bytes, StatisticKind::Counter),
    ("proxy_response_bytes_yb_master_MasterService_IsDeleteNamespaceDone", Unit::Bytes, StatisticKind::Counter),
    ("proxy_response_bytes_yb_master_MasterService_IsDeleteTableDone", Unit::Bytes, StatisticKind::Counter),
    ("proxy_response_bytes_yb_master_MasterService_IsEncryptionEnabled", Unit::Bytes, StatisticKind::Counter),
    ("proxy_response_bytes_yb_master_MasterService_IsFlushTablesDone", Unit::Bytes, StatisticKind::Counter),
    ("proxy_response_bytes_yb_master_MasterService_IsInitDbDone", Unit::Bytes, StatisticKind::Counter),
    ("proxy_response_bytes_yb_master_MasterService_IsLoadBalanced", Unit::Bytes, StatisticKind::Counter),
    ("proxy_response_bytes_yb_master_MasterService_IsLoadBalancerIdle", Unit::Bytes, StatisticKind::Counter),
    ("proxy_response_bytes_yb_master_MasterService_IsMasterLeaderServiceReady", Unit::Bytes, StatisticKind::Counter),
    ("proxy_response_bytes_yb_master_MasterService_IsSetupUniverseReplicationDone", Unit::Bytes, StatisticKind::Counter),
    ("proxy_response_bytes_yb_master_MasterService_IsTruncateTableDone", Unit::Bytes, StatisticKind::Counter),
    ("proxy_response_bytes_yb_master_MasterService_LaunchBackfillIndexForTable", Unit::Bytes, StatisticKind::Counter),
    ("proxy_response_bytes_yb_master_MasterService_ListCDCStreams", Unit::Bytes, StatisticKind::Counter),
    ("proxy_response_bytes_yb_master_MasterService_ListLiveTabletServers", Unit::Bytes, StatisticKind::Counter),
    ("proxy_response_bytes_yb_master_MasterService_ListMasterRaftPeers", Unit::Bytes, StatisticKind::Counter),
    ("proxy_response_bytes_yb_master_MasterService_ListMasters", Unit::Bytes, StatisticKind::Counter),
    ("proxy_response_bytes_yb_master_MasterService_ListNamespace", Unit::Bytes, StatisticKind::Counter),
    ("proxy_response_bytes_yb_master_MasterService_ListTablegroups", Unit::Bytes, StatisticKind::Counter),
    ("proxy_response_bytes_yb_master_MasterService_ListTables", Unit::Bytes, StatisticKind::Counter),
    ("proxy_response_bytes_yb_master_MasterService_ListTabletServers", Unit::Bytes, StatisticKind::Counter),
    ("proxy_response_bytes_yb_master_MasterService_ListUDTypes", Unit::Bytes, StatisticKind::Counter),
    ("proxy_response_bytes_yb_master_MasterService_RedisConfigGet", Unit::Bytes, StatisticKind::Counter),
    ("proxy_response_bytes_yb_master_MasterService_RedisConfigSet", Unit::Bytes, StatisticKind::Counter),
    ("proxy_response_bytes_yb_master_MasterService_RemoveMasterUpdate", Unit::Bytes, StatisticKind::Counter),
    ("proxy_response_bytes_yb_master_MasterService_ReservePgsqlOids", Unit::Bytes, StatisticKind::Counter),
    ("proxy_response_bytes_yb_master_MasterService_SetPreferredZone", Unit::Bytes, StatisticKind::Counter),
    ("proxy_response_bytes_yb_master_MasterService_SetUniverseReplication", Unit::Bytes, StatisticKind::Counter),
    ("proxy_response_bytes_yb_master_MasterService_SetupUniverseReplication", Unit::Bytes, StatisticKind::Counter),
    ("proxy_response_bytes_yb_master_MasterService_SplitTablet", Unit::Bytes, StatisticKind::Counter),
    ("proxy_response_bytes_yb_master_MasterService_TSHeartbeat", Unit::Bytes, StatisticKind::Counter),
    ("proxy_response_bytes_yb_master_MasterService_TruncateTable", Unit::Bytes, StatisticKind::Counter),
    ("proxy_response_bytes_yb_master_MasterService_UpdateCDCStream", Unit::Bytes, StatisticKind::Counter),
    ("proxy_response_bytes_yb_server_GenericService_FlushCoverage", Unit::Bytes, StatisticKind::Counter),
    ("proxy_response_bytes_yb_server_GenericService_GetAutoFlagsConfigVersion", Unit::Bytes, StatisticKind::Counter),
    ("proxy_response_bytes_yb_server_GenericService_GetFlag", Unit::Bytes, StatisticKind::Counter),
    ("proxy_response_bytes_yb_server_GenericService_GetStatus", Unit::Bytes, StatisticKind::Counter),
    ("proxy_response_bytes_yb_server_GenericService_Ping", Unit::Bytes, StatisticKind::Counter),
    ("proxy_response_bytes_yb_server_GenericService_RefreshFlags", Unit::Bytes, StatisticKind::Counter),
    ("proxy_response_bytes_yb_server_GenericService_ReloadCertificates", Unit::Bytes, StatisticKind::Counter),
    ("proxy_response_bytes_yb_server_GenericService_ServerClock", Unit::Bytes, StatisticKind::Counter),
    ("proxy_response_bytes_yb_server_GenericService_SetFlag", Unit::Bytes, StatisticKind::Counter),
    ("proxy_response_bytes_yb_tserver_RemoteBootstrapService_BeginRemoteBootstrapSession", Unit::Bytes, StatisticKind::Counter), // 2.15.2.0
    ("proxy_response_bytes_yb_tserver_RemoteBootstrapService_ChangePeerRole", Unit::Bytes, StatisticKind::Counter), // 2.17.0.0
    ("proxy_response_bytes_yb_tserver_RemoteBootstrapService_CheckRemoteBootstrapSessionActive", Unit::Bytes, StatisticKind::Counter), // 2.17.0.0
    ("proxy_response_bytes_yb_tserver_RemoteBootstrapService_EndRemoteBootstrapSession", Unit::Bytes, StatisticKind::Counter), // 2.15.2.0
    ("proxy_response_bytes_yb_tserver_RemoteBootstrapService_FetchData", Unit::Bytes, StatisticKind::Counter), // 2.15.2.0
    ("proxy_response_bytes_yb_tserver_RemoteBootstrapService_KeepLogAnchorAlive", Unit::Bytes, StatisticKind::Counter), // 2.17.0.0
    ("proxy_response_bytes_yb_tserver_RemoteBootstrapService_RegisterLogAnchor", Unit::Bytes, StatisticKind::Counter), // 2.17.0.0
    ("proxy_response_bytes_yb_tserver_RemoteBootstrapService_RemoveRemoteBootstrapSession", Unit::Bytes, StatisticKind::Counter), // 2.17.0.0
    ("proxy_response_bytes_yb_tserver_RemoteBootstrapService_UnregisterLogAnchor", Unit::Bytes, StatisticKind::Counter), // 2.17.0.0
    ("proxy_response_bytes_yb_tserver_RemoteBootstrapService_UpdateLogAnchor", Unit::Bytes, StatisticKind::Counter), // 2.17.0.0
    ("proxy_response_bytes_yb_tserver_TabletServerAdminService_AddTableToTablet", Unit::Bytes, StatisticKind::Counter),
    ("proxy_response_bytes_yb_tserver_TabletServerAdminService_AlterSchema", Unit::Bytes, StatisticKind::Counter),
    ("proxy_response_bytes_yb_tserver_TabletServerAdminService_BackfillDone", Unit::Bytes, StatisticKind::Counter),
    ("proxy_response_bytes_yb_tserver_TabletServerAdminService_BackfillIndex", Unit::Bytes, StatisticKind::Counter),
    ("proxy_response_bytes_yb_tserver_TabletServerAdminService_CopartitionTable", Unit::Bytes, StatisticKind::Counter),
    ("proxy_response_bytes_yb_tserver_TabletServerAdminService_CountIntents", Unit::Bytes, StatisticKind::Counter),
    ("proxy_response_bytes_yb_tserver_TabletServerAdminService_CreateTablet", Unit::Bytes, StatisticKind::Counter),
    ("proxy_response_bytes_yb_tserver_TabletServerAdminService_DeleteTablet", Unit::Bytes, StatisticKind::Counter),
    ("proxy_response_bytes_yb_tserver_TabletServerAdminService_FlushTablets", Unit::Bytes, StatisticKind::Counter),
    ("proxy_response_bytes_yb_tserver_TabletServerAdminService_GetSafeTime", Unit::Bytes, StatisticKind::Counter),
    ("proxy_response_bytes_yb_tserver_TabletServerAdminService_PrepareDeleteTransactionTablet", Unit::Bytes, StatisticKind::Counter), // 2.17
    ("proxy_response_bytes_yb_tserver_TabletServerAdminService_RemoveTableFromTablet", Unit::Bytes, StatisticKind::Counter),
    ("proxy_response_bytes_yb_tserver_TabletServerAdminService_SplitTablet", Unit::Bytes, StatisticKind::Counter),
    ("proxy_response_bytes_yb_tserver_TabletServerAdminService_TestRetry", Unit::Bytes, StatisticKind::Counter),
    ("proxy_response_bytes_yb_tserver_TabletServerAdminService_UpdateTransactionTablesVersion", Unit::Bytes, StatisticKind::Counter), // 2.17
    ("proxy_response_bytes_yb_tserver_TabletServerAdminService_UpgradeYsql", Unit::Bytes, StatisticKind::Counter),
    ("proxy_response_bytes_yb_tserver_TabletServerBackupService_TabletSnapshotOp", Unit::Bytes, StatisticKind::Counter),
    ("proxy_response_bytes_yb_tserver_TabletServerService_AbortTransaction", Unit::Bytes, StatisticKind::Counter),
    ("proxy_response_bytes_yb_tserver_TabletServerService_Checksum", Unit::Bytes, StatisticKind::Counter),
    ("proxy_response_bytes_yb_tserver_TabletServerService_GetLogLocation", Unit::Bytes, StatisticKind::Counter),
    ("proxy_response_bytes_yb_tserver_TabletServerService_GetMasterAddresses", Unit::Bytes, StatisticKind::Counter),
    ("proxy_response_bytes_yb_tserver_TabletServerService_GetSharedData", Unit::Bytes, StatisticKind::Counter),
    ("proxy_response_bytes_yb_tserver_TabletServerService_GetSplitKey", Unit::Bytes, StatisticKind::Counter),
    ("proxy_response_bytes_yb_tserver_TabletServerService_GetTabletStatus", Unit::Bytes, StatisticKind::Counter),
    ("proxy_response_bytes_yb_tserver_TabletServerService_GetTransactionStatus", Unit::Bytes, StatisticKind::Counter),
    ("proxy_response_bytes_yb_tserver_TabletServerService_GetTransactionStatusAtParticipant", Unit::Bytes, StatisticKind::Counter),
    ("proxy_response_bytes_yb_tserver_TabletServerService_GetTserverCatalogVersionInfo", Unit::Bytes, StatisticKind::Counter),
    ("proxy_response_bytes_yb_tserver_TabletServerService_ImportData", Unit::Bytes, StatisticKind::Counter),
    ("proxy_response_bytes_yb_tserver_TabletServerService_IsTabletServerReady", Unit::Bytes, StatisticKind::Counter),
    ("proxy_response_bytes_yb_tserver_TabletServerService_ListMasterServers", Unit::Bytes, StatisticKind::Counter), // 2.17.2
    ("proxy_response_bytes_yb_tserver_TabletServerService_ListTablets", Unit::Bytes, StatisticKind::Counter),
    ("proxy_response_bytes_yb_tserver_TabletServerService_ListTabletsForTabletServer", Unit::Bytes, StatisticKind::Counter),
    ("proxy_response_bytes_yb_tserver_TabletServerService_NoOp", Unit::Bytes, StatisticKind::Counter),
    ("proxy_response_bytes_yb_tserver_TabletServerService_ProbeTransactionDeadlock", Unit::Bytes, StatisticKind::Counter),
    ("proxy_response_bytes_yb_tserver_TabletServerService_Publish", Unit::Bytes, StatisticKind::Counter),
    ("proxy_response_bytes_yb_tserver_TabletServerService_Read", Unit::Bytes, StatisticKind::Counter),
    ("proxy_response_bytes_yb_tserver_TabletServerService_TakeTransaction", Unit::Bytes, StatisticKind::Counter),
    ("proxy_response_bytes_yb_tserver_TabletServerService_Truncate", Unit::Bytes, StatisticKind::Counter),
    ("proxy_response_bytes_yb_tserver_TabletServerService_UpdateTransaction", Unit::Bytes, StatisticKind::Counter),
    ("proxy_response_bytes_yb_tserver_TabletServerService_UpdateTransactionStatusLocation", Unit::Bytes, StatisticKind::Counter),
    ("proxy_response_bytes_yb_tserver_TabletServerService_UpdateTransactionWaitingForStatus", Unit::Bytes, StatisticKind::Counter),
    ("proxy_response_bytes_yb_tserver_TabletServerService_VerifyTableRowRange", Unit::Bytes, StatisticKind::Counter),
    ("proxy_response_bytes_yb_tserver_TabletServerService_Write", Unit::Bytes, StatisticKind::Counter),
    ("queued_background_compaction_input_bytes_added", Unit::Bytes, StatisticKind::Gauge), // 2.17.2
    ("queued_background_compaction_input_bytes_removed", Unit::Bytes, StatisticKind::Gauge), // 2.17.2
    ("queued_background_compaction_input_files_added", Unit::Files, StatisticKind::Gauge), // 2.17.2
    ("queued_background_compaction_input_files_removed", Unit::Files, StatisticKind::Gauge), // 2.17.2
    ("queued_background_compaction_tasks_added", Unit::Tasks, StatisticKind::Gauge), // 2.17.2
    ("queued_background_compaction_tasks_removed", Unit::Tasks, StatisticKind::Gauge), // 2.17.2
    ("queued_full_compaction_input_bytes_added", Unit::Bytes, StatisticKind::Gauge), // 2.17.2
    ("queued_full_compaction_input_bytes_removed", Unit::Bytes, StatisticKind::Gauge), // 2.17.2
    ("queued_full_compaction_input_files_added", Unit::Files, StatisticKind::Gauge), // 2.17.2
    ("queued_full_compaction_input_files_removed", Unit::Files, StatisticKind::Gauge), // 2.17.2
    ("queued_full_compaction_tasks_added", Unit::Tasks, StatisticKind::Gauge), // 2.17.2
    ("queued_full_compaction_tasks_removed", Unit::Tasks, StatisticKind::Gauge), // 2.17.2
    ("queued_post_split_compaction_input_bytes_added", Unit::Bytes, StatisticKind::Gauge), // 2.17.2
    ("queued_post_split_compaction_input_bytes_removed", Unit::Bytes, StatisticKind::Gauge), // 2.17.2
    ("queued_post_split_compaction_input_files_added", Unit::Files, StatisticKind::Gauge), // 2.17.2
    ("queued_post_split_compaction_input_files_removed", Unit::Files, StatisticKind::Gauge), // 2.17.2
    ("queued_post_split_compaction_tasks_added", Unit::Tasks, StatisticKind::Gauge), // 2.17.2
    ("queued_post_split_compaction_tasks_removed", Unit::Tasks, StatisticKind::Gauge), // 2.17.2
    ("queued_task_metrics_compaction_input_bytes_added", Unit::Bytes, StatisticKind::Gauge),
    ("queued_task_metrics_compaction_input_bytes_removed", Unit::Bytes, StatisticKind::Gauge),
    ("queued_task_metrics_compaction_input_files_added", Unit::Files, StatisticKind::Gauge),
    ("queued_task_metrics_compaction_input_files_removed", Unit::Files, StatisticKind::Gauge),
    ("queued_task_metrics_compaction_tasks_added", Unit::Tasks, StatisticKind::Gauge),
    ("queued_task_metrics_compaction_tasks_removed", Unit::Tasks, StatisticKind::Gauge),
    ("raft_term", Unit::CurrentConsensusTerm, StatisticKind::Gauge),
    ("replicated_retryable_request_ranges", Unit::Requests, StatisticKind::Gauge),
    ("restart_read_requests", Unit::Requests, StatisticKind::Counter),
    ("rocksdb_block_cache_add", Unit::Blocks, StatisticKind::Counter),
    ("rocksdb_block_cache_add_failures", Unit::Blocks, StatisticKind::Counter),
    ("rocksdb_block_cache_bytes_read", Unit::Bytes, StatisticKind::Counter),
    ("rocksdb_block_cache_bytes_write", Unit::Bytes, StatisticKind::Counter),
    ("rocksdb_block_cache_data_hit", Unit::Blocks, StatisticKind::Counter),
    ("rocksdb_block_cache_data_miss", Unit::Blocks, StatisticKind::Counter),
    ("rocksdb_block_cache_filter_hit", Unit::Blocks, StatisticKind::Counter),
    ("rocksdb_block_cache_filter_miss", Unit::Blocks, StatisticKind::Counter),
    ("rocksdb_block_cache_hit", Unit::Blocks, StatisticKind::Counter),
    ("rocksdb_block_cache_index_hit", Unit::Blocks, StatisticKind::Counter),
    ("rocksdb_block_cache_index_miss", Unit::Blocks, StatisticKind::Counter),
    ("rocksdb_block_cache_miss", Unit::Blocks, StatisticKind::Counter),
    ("rocksdb_block_cache_multi_touch_add", Unit::Blocks, StatisticKind::Counter),
    ("rocksdb_block_cache_multi_touch_bytes_read", Unit::Bytes, StatisticKind::Counter),
    ("rocksdb_block_cache_multi_touch_bytes_write", Unit::Bytes, StatisticKind::Counter),
    ("rocksdb_block_cache_multi_touch_hit", Unit::Blocks, StatisticKind::Counter),
    ("rocksdb_block_cache_single_touch_add", Unit::Blocks, StatisticKind::Counter),
    ("rocksdb_block_cache_single_touch_bytes_read", Unit::Bytes, StatisticKind::Counter),
    ("rocksdb_block_cache_single_touch_bytes_write", Unit::Bytes, StatisticKind::Counter),
    ("rocksdb_block_cache_single_touch_hit", Unit::Blocks, StatisticKind::Counter),
    ("rocksdb_block_cachecompressed_add", Unit::Blocks, StatisticKind::Counter),
    ("rocksdb_block_cachecompressed_add_failures", Unit::Blocks, StatisticKind::Counter),
    ("rocksdb_block_cachecompressed_hit", Unit::Blocks, StatisticKind::Counter),
    ("rocksdb_block_cachecompressed_miss", Unit::Blocks, StatisticKind::Counter),
    ("rocksdb_bloom_filter_checked", Unit::Blocks, StatisticKind::Counter),
    ("rocksdb_bloom_filter_prefix_checked", Unit::Blocks, StatisticKind::Counter),
    ("rocksdb_bloom_filter_prefix_useful", Unit::Blocks, StatisticKind::Counter),
    ("rocksdb_bloom_filter_useful", Unit::Blocks, StatisticKind::Counter),
    ("rocksdb_bytes_read", Unit::Bytes, StatisticKind::Counter),
    ("rocksdb_bytes_written", Unit::Bytes, StatisticKind::Counter),
    ("rocksdb_compact_read_bytes", Unit::Bytes, StatisticKind::Counter),
    ("rocksdb_compact_write_bytes", Unit::Bytes, StatisticKind::Counter),
    ("rocksdb_compaction_files_filtered", Unit::Files, StatisticKind::Counter),
    ("rocksdb_compaction_files_not_filtered", Unit::Files, StatisticKind::Counter),
    ("rocksdb_compaction_key_drop_new", Unit::Keys, StatisticKind::Counter),
    ("rocksdb_compaction_key_drop_obsolete", Unit::Keys, StatisticKind::Counter),
    ("rocksdb_compaction_key_drop_user", Unit::Keys, StatisticKind::Counter),
    ("rocksdb_current_version_num_sst_files", Unit::Files, StatisticKind::Gauge),
    ("rocksdb_current_version_sst_files_size", Unit::Bytes, StatisticKind::Gauge),
    ("rocksdb_current_version_sst_files_uncompressed_size", Unit::Bytes, StatisticKind::Gauge),
    ("rocksdb_db_iter_bytes_read", Unit::Bytes, StatisticKind::Counter),
    ("rocksdb_db_mutex_wait_micros", Unit::Microseconds, StatisticKind::Counter),
    ("rocksdb_filter_operation_time_nanos", Unit::Nanoseconds, StatisticKind::Counter),
    ("rocksdb_flush_write_bytes", Unit::Bytes, StatisticKind::Counter),
    ("rocksdb_getupdatessince_calls", Unit::Calls, StatisticKind::Counter),
    ("rocksdb_l0_hit", Unit::Keys, StatisticKind::Counter),
    ("rocksdb_l0_num_files_stall_micros", Unit::Microseconds, StatisticKind::Counter),
    ("rocksdb_l0_slowdown_micros", Unit::Microseconds, StatisticKind::Counter),
    ("rocksdb_l1_hit", Unit::Keys, StatisticKind::Counter),
    ("rocksdb_l2andup_hit", Unit::Keys, StatisticKind::Counter),
    ("rocksdb_memtable_compaction_micros", Unit::Microseconds, StatisticKind::Counter),
    ("rocksdb_memtable_hit", Unit::Keys, StatisticKind::Counter),
    ("rocksdb_memtable_miss", Unit::Keys, StatisticKind::Counter),
    ("rocksdb_merge_operation_time_nanos", Unit::Nanoseconds, StatisticKind::Counter),
    ("rocksdb_no_file_closes", Unit::Files, StatisticKind::Counter),
    ("rocksdb_no_file_errors", Unit::Files, StatisticKind::Counter),
    ("rocksdb_no_file_opens", Unit::Files, StatisticKind::Counter),
    ("rocksdb_no_table_cache_iterators", Unit::Iterators, StatisticKind::Counter),
    ("rocksdb_num_iterators", Unit::Iterators, StatisticKind::Counter),
    ("rocksdb_number_block_not_compressed", Unit::Blocks, StatisticKind::Counter),
    ("rocksdb_number_db_next", Unit::Keys, StatisticKind::Counter),
    ("rocksdb_number_db_next_found", Unit::Keys, StatisticKind::Counter),
    ("rocksdb_number_db_prev", Unit::Keys, StatisticKind::Counter),
    ("rocksdb_number_db_prev_found", Unit::Keys, StatisticKind::Counter),
    ("rocksdb_number_db_seek", Unit::Keys, StatisticKind::Counter),
    ("rocksdb_number_db_seek_found", Unit::Keys, StatisticKind::Counter),
    ("rocksdb_number_deletes_filtered", Unit::Deletes, StatisticKind::Counter),
    ("rocksdb_number_direct_load_table_properties", Unit::Properties, StatisticKind::Counter),
    ("rocksdb_number_keys_read", Unit::Keys, StatisticKind::Counter),
    ("rocksdb_number_keys_updated", Unit::Keys, StatisticKind::Counter),
    ("rocksdb_number_keys_written", Unit::Keys, StatisticKind::Counter),
    ("rocksdb_number_merge_failures", Unit::Failures, StatisticKind::Counter),
    ("rocksdb_number_multiget_bytes_read", Unit::Bytes, StatisticKind::Counter),
    ("rocksdb_number_multiget_get", Unit::Calls, StatisticKind::Counter),
    ("rocksdb_number_multiget_keys_read", Unit::Keys, StatisticKind::Counter),
    ("rocksdb_number_reseeks_iteration", Unit::Seeks, StatisticKind::Counter),
    ("rocksdb_number_superversion_acquires", Unit::Nr, StatisticKind::Counter),
    ("rocksdb_number_superversion_cleanups", Unit::Nr, StatisticKind::Counter),
    ("rocksdb_number_superversion_releases", Unit::Nr, StatisticKind::Counter),
    ("rocksdb_rate_limit_delay_millis", Unit::Milliseconds, StatisticKind::Counter),
    ("rocksdb_row_cache_hit", Unit::Rows, StatisticKind::Counter),
    ("rocksdb_row_cache_miss", Unit::Rows, StatisticKind::Counter),
    ("rocksdb_sequence_number", Unit::Rows, StatisticKind::Counter),
    ("rocksdb_stall_micros", Unit::Microseconds, StatisticKind::Counter),
    ("rocksdb_total_sst_files_size", Unit::Bytes, StatisticKind::Gauge),
    ("rocksdb_wal_bytes", Unit::Bytes, StatisticKind::Counter),
    ("rocksdb_wal_synced", Unit::Syncs, StatisticKind::Counter),
    ("rocksdb_write_other", Unit::Writes, StatisticKind::Counter),
    ("rocksdb_write_self", Unit::Writes, StatisticKind::Counter),
    ("rocksdb_write_wal", Unit::Writes, StatisticKind::Counter),
    ("rows_inserted", Unit::Rows, StatisticKind::Counter),
    ("rpc_connections_accepted", Unit::Connections, StatisticKind::Counter),
    ("rpc_connections_alive", Unit::Connections, StatisticKind::Gauge),
    ("rpc_connections_created", Unit::Connections, StatisticKind::Counter),
    ("rpc_inbound_calls_alive", Unit::Requests, StatisticKind::Gauge),
    ("rpc_inbound_calls_created", Unit::Requests, StatisticKind::Counter),
    ("rpc_outbound_calls_alive", Unit::Requests, StatisticKind::Gauge),
    ("rpc_outbound_calls_created", Unit::Requests, StatisticKind::Counter),
    ("rpc_timed_out_early_in_queue", Unit::Requests, StatisticKind::Counter),
    ("rpc_timed_out_in_queue", Unit::Requests, StatisticKind::Counter),
    ("rpcs_in_queue_yb_cdc_CDCService", Unit::Rpcs, StatisticKind::Gauge),
    ("rpcs_in_queue_yb_consensus_ConsensusService", Unit::Rpcs, StatisticKind::Gauge),
    ("rpcs_in_queue_yb_cqlserver_CQLServerService", Unit::Rpcs, StatisticKind::Gauge),
    ("rpcs_in_queue_yb_master_MasterBackup", Unit::Rpcs, StatisticKind::Gauge),
    ("rpcs_in_queue_yb_master_MasterBackupService", Unit::Rpcs, StatisticKind::Gauge),
    ("rpcs_in_queue_yb_master_MasterService", Unit::Rpcs, StatisticKind::Gauge),
    ("rpcs_in_queue_yb_server_GenericService", Unit::Rpcs, StatisticKind::Gauge),
    ("rpcs_in_queue_yb_tserver_GenericService", Unit::Rpcs, StatisticKind::Gauge),
    ("rpcs_in_queue_yb_tserver_PgClientService", Unit::Rpcs, StatisticKind::Gauge),
    ("rpcs_in_queue_yb_tserver_RemoteBootstrapService", Unit::Rpcs, StatisticKind::Gauge),
    ("rpcs_in_queue_yb_tserver_TabletServerAdminService", Unit::Rpcs, StatisticKind::Gauge),
    ("rpcs_in_queue_yb_tserver_TabletServerBackupService", Unit::Rpcs, StatisticKind::Gauge),
    ("rpcs_in_queue_yb_tserver_TabletServerService", Unit::Rpcs, StatisticKind::Gauge),
    ("rpcs_queue_overflow", Unit::Requests, StatisticKind::Counter),
    ("rpcs_timed_out_early_in_queue", Unit::Requests, StatisticKind::Counter),
    ("rpcs_timed_out_in_queue", Unit::Requests, StatisticKind::Counter),
    ("running_retryable_requests", Unit::Requests, StatisticKind::Gauge),
    ("server_uptime_ms", Unit::Milliseconds, StatisticKind::Counter),
    ("service_request_bytes_yb_cdc_CDCService_BootstrapProducer", Unit::Bytes, StatisticKind::Counter),
    ("service_request_bytes_yb_cdc_CDCService_CheckReplicationDrain", Unit::Bytes, StatisticKind::Counter),
    ("service_request_bytes_yb_cdc_CDCService_CreateCDCStream", Unit::Bytes, StatisticKind::Counter),
    ("service_request_bytes_yb_cdc_CDCService_DeleteCDCStream", Unit::Bytes, StatisticKind::Counter),
    ("service_request_bytes_yb_cdc_CDCService_GetCDCDBStreamInfo", Unit::Bytes, StatisticKind::Counter),
    ("service_request_bytes_yb_cdc_CDCService_GetChanges", Unit::Bytes, StatisticKind::Counter),
    ("service_request_bytes_yb_cdc_CDCService_GetCheckpoint", Unit::Bytes, StatisticKind::Counter),
    ("service_request_bytes_yb_cdc_CDCService_GetLatestEntryOpId", Unit::Bytes, StatisticKind::Counter),
    ("service_request_bytes_yb_cdc_CDCService_GetTabletListToPollForCDC", Unit::Bytes, StatisticKind::Counter), // 2.17
    ("service_request_bytes_yb_cdc_CDCService_IsBootstrapRequired", Unit::Bytes, StatisticKind::Counter),
    ("service_request_bytes_yb_cdc_CDCService_ListTablets", Unit::Bytes, StatisticKind::Counter),
    ("service_request_bytes_yb_cdc_CDCService_SetCDCCheckpoint", Unit::Bytes, StatisticKind::Counter),
    ("service_request_bytes_yb_cdc_CDCService_UpdateCdcReplicatedIndex", Unit::Bytes, StatisticKind::Counter),
    ("service_request_bytes_yb_consensus_ConsensusService_ChangeConfig", Unit::Bytes, StatisticKind::Counter),
    ("service_request_bytes_yb_consensus_ConsensusService_GetConsensusState", Unit::Bytes, StatisticKind::Counter),
    ("service_request_bytes_yb_consensus_ConsensusService_GetLastOpId", Unit::Bytes, StatisticKind::Counter),
    ("service_request_bytes_yb_consensus_ConsensusService_GetNodeInstance", Unit::Bytes, StatisticKind::Counter),
    ("service_request_bytes_yb_consensus_ConsensusService_LeaderElectionLost", Unit::Bytes, StatisticKind::Counter),
    ("service_request_bytes_yb_consensus_ConsensusService_LeaderStepDown", Unit::Bytes, StatisticKind::Counter),
    ("service_request_bytes_yb_consensus_ConsensusService_MultiRaftUpdateConsensus", Unit::Bytes, StatisticKind::Counter),
    ("service_request_bytes_yb_consensus_ConsensusService_RequestConsensusVote", Unit::Bytes, StatisticKind::Counter),
    ("service_request_bytes_yb_consensus_ConsensusService_RunLeaderElection", Unit::Bytes, StatisticKind::Counter),
    ("service_request_bytes_yb_consensus_ConsensusService_StartRemoteBootstrap", Unit::Bytes, StatisticKind::Counter),
    ("service_request_bytes_yb_consensus_ConsensusService_UnsafeChangeConfig", Unit::Bytes, StatisticKind::Counter),
    ("service_request_bytes_yb_consensus_ConsensusService_UpdateConsensus", Unit::Bytes, StatisticKind::Counter),
    ("service_request_bytes_yb_master_MasterAdmin_AddTransactionStatusTablet", Unit::Bytes, StatisticKind::Counter),
    ("service_request_bytes_yb_master_MasterAdmin_CheckIfPitrActive", Unit::Bytes, StatisticKind::Counter),
    ("service_request_bytes_yb_master_MasterAdmin_CompactSysCatalog", Unit::Bytes, StatisticKind::Counter),
    ("service_request_bytes_yb_master_MasterAdmin_CreateTransactionStatusTable", Unit::Bytes, StatisticKind::Counter),
    ("service_request_bytes_yb_master_MasterAdmin_DdlLog", Unit::Bytes, StatisticKind::Counter),
    ("service_request_bytes_yb_master_MasterAdmin_DeleteNotServingTablet", Unit::Bytes, StatisticKind::Counter),
    ("service_request_bytes_yb_master_MasterAdmin_DisableTabletSplitting", Unit::Bytes, StatisticKind::Counter),
    ("service_request_bytes_yb_master_MasterAdmin_FlushSysCatalog", Unit::Bytes, StatisticKind::Counter),
    ("service_request_bytes_yb_master_MasterAdmin_FlushTables", Unit::Bytes, StatisticKind::Counter),
    ("service_request_bytes_yb_master_MasterAdmin_IsFlushTablesDone", Unit::Bytes, StatisticKind::Counter),
    ("service_request_bytes_yb_master_MasterAdmin_IsInitDbDone", Unit::Bytes, StatisticKind::Counter),
    ("service_request_bytes_yb_master_MasterAdmin_IsTabletSplittingComplete", Unit::Bytes, StatisticKind::Counter),
    ("service_request_bytes_yb_master_MasterAdmin_SplitTablet", Unit::Bytes, StatisticKind::Counter),
    ("service_request_bytes_yb_master_MasterBackupService_CreateSnapshot", Unit::Bytes, StatisticKind::Counter),
    ("service_request_bytes_yb_master_MasterBackupService_CreateSnapshotSchedule", Unit::Bytes, StatisticKind::Counter),
    ("service_request_bytes_yb_master_MasterBackupService_DeleteSnapshot", Unit::Bytes, StatisticKind::Counter),
    ("service_request_bytes_yb_master_MasterBackupService_DeleteSnapshotSchedule", Unit::Bytes, StatisticKind::Counter),
    ("service_request_bytes_yb_master_MasterBackupService_ImportSnapshotMeta", Unit::Bytes, StatisticKind::Counter),
    ("service_request_bytes_yb_master_MasterBackupService_ListSnapshotRestorations", Unit::Bytes, StatisticKind::Counter),
    ("service_request_bytes_yb_master_MasterBackupService_ListSnapshotSchedules", Unit::Bytes, StatisticKind::Counter),
    ("service_request_bytes_yb_master_MasterBackupService_ListSnapshots", Unit::Bytes, StatisticKind::Counter),
    ("service_request_bytes_yb_master_MasterBackupService_RestoreSnapshot", Unit::Bytes, StatisticKind::Counter),
    ("service_request_bytes_yb_master_MasterBackup_CreateSnapshot", Unit::Bytes, StatisticKind::Counter),
    ("service_request_bytes_yb_master_MasterBackup_CreateSnapshotSchedule", Unit::Bytes, StatisticKind::Counter),
    ("service_request_bytes_yb_master_MasterBackup_DeleteSnapshot", Unit::Bytes, StatisticKind::Counter),
    ("service_request_bytes_yb_master_MasterBackup_DeleteSnapshotSchedule", Unit::Bytes, StatisticKind::Counter),
    ("service_request_bytes_yb_master_MasterBackup_EditSnapshotSchedule", Unit::Bytes, StatisticKind::Counter),
    ("service_request_bytes_yb_master_MasterBackup_ImportSnapshotMeta", Unit::Bytes, StatisticKind::Counter),
    ("service_request_bytes_yb_master_MasterBackup_ListSnapshotRestorations", Unit::Bytes, StatisticKind::Counter),
    ("service_request_bytes_yb_master_MasterBackup_ListSnapshotSchedules", Unit::Bytes, StatisticKind::Counter),
    ("service_request_bytes_yb_master_MasterBackup_ListSnapshots", Unit::Bytes, StatisticKind::Counter),
    ("service_request_bytes_yb_master_MasterBackup_RestoreSnapshot", Unit::Bytes, StatisticKind::Counter),
    ("service_request_bytes_yb_master_MasterBackup_RestoreSnapshotSchedule", Unit::Bytes, StatisticKind::Counter), // 2.17
    ("service_request_bytes_yb_master_MasterClient_GetTableLocations", Unit::Bytes, StatisticKind::Counter),
    ("service_request_bytes_yb_master_MasterClient_GetTabletLocations", Unit::Bytes, StatisticKind::Counter),
    ("service_request_bytes_yb_master_MasterClient_GetTransactionStatusTablets", Unit::Bytes, StatisticKind::Counter), //
    ("service_request_bytes_yb_master_MasterClient_GetYsqlCatalogConfig", Unit::Bytes, StatisticKind::Counter),
    ("service_request_bytes_yb_master_MasterClient_RedisConfigGet", Unit::Bytes, StatisticKind::Counter),
    ("service_request_bytes_yb_master_MasterClient_RedisConfigSet", Unit::Bytes, StatisticKind::Counter),
    ("service_request_bytes_yb_master_MasterClient_ReservePgsqlOids", Unit::Bytes, StatisticKind::Counter), //
    ("service_request_bytes_yb_master_MasterCluster_AreLeadersOnPreferredOnly", Unit::Bytes, StatisticKind::Counter),
    ("service_request_bytes_yb_master_MasterCluster_ChangeLoadBalancerState", Unit::Bytes, StatisticKind::Counter),
    ("service_request_bytes_yb_master_MasterCluster_ChangeMasterClusterConfig", Unit::Bytes, StatisticKind::Counter),
    ("service_request_bytes_yb_master_MasterCluster_DumpState", Unit::Bytes, StatisticKind::Counter),
    ("service_request_bytes_yb_master_MasterCluster_GetAutoFlagsConfig", Unit::Bytes, StatisticKind::Counter), // 2.15.2.1
    ("service_request_bytes_yb_master_MasterCluster_GetLeaderBlacklistCompletion", Unit::Bytes, StatisticKind::Counter),
    ("service_request_bytes_yb_master_MasterCluster_GetLoadBalancerState", Unit::Bytes, StatisticKind::Counter),
    ("service_request_bytes_yb_master_MasterCluster_GetLoadMoveCompletion", Unit::Bytes, StatisticKind::Counter),
    ("service_request_bytes_yb_master_MasterCluster_GetMasterClusterConfig", Unit::Bytes, StatisticKind::Counter),
    ("service_request_bytes_yb_master_MasterCluster_GetMasterRegistration", Unit::Bytes, StatisticKind::Counter),
    ("service_request_bytes_yb_master_MasterCluster_IsLoadBalanced", Unit::Bytes, StatisticKind::Counter),
    ("service_request_bytes_yb_master_MasterCluster_IsLoadBalancerIdle", Unit::Bytes, StatisticKind::Counter),
    ("service_request_bytes_yb_master_MasterCluster_IsMasterLeaderServiceReady", Unit::Bytes, StatisticKind::Counter),
    ("service_request_bytes_yb_master_MasterCluster_ListLiveTabletServers", Unit::Bytes, StatisticKind::Counter),
    ("service_request_bytes_yb_master_MasterCluster_ListMasterRaftPeers", Unit::Bytes, StatisticKind::Counter),
    ("service_request_bytes_yb_master_MasterCluster_ListMasters", Unit::Bytes, StatisticKind::Counter),
    ("service_request_bytes_yb_master_MasterCluster_ListTabletServers", Unit::Bytes, StatisticKind::Counter),
    ("service_request_bytes_yb_master_MasterCluster_PromoteAutoFlags", Unit::Bytes, StatisticKind::Counter), // 2.17
    ("service_request_bytes_yb_master_MasterCluster_RemovedMasterUpdate", Unit::Bytes, StatisticKind::Counter),
    ("service_request_bytes_yb_master_MasterCluster_SetPreferredZones", Unit::Bytes, StatisticKind::Counter),
    ("service_request_bytes_yb_master_MasterDcl_AlterRole", Unit::Bytes, StatisticKind::Counter),
    ("service_request_bytes_yb_master_MasterDcl_CreateRole", Unit::Bytes, StatisticKind::Counter),
    ("service_request_bytes_yb_master_MasterDcl_DeleteRole", Unit::Bytes, StatisticKind::Counter),
    ("service_request_bytes_yb_master_MasterDcl_GetPermissions", Unit::Bytes, StatisticKind::Counter),
    ("service_request_bytes_yb_master_MasterDcl_GrantRevokePermission", Unit::Bytes, StatisticKind::Counter),
    ("service_request_bytes_yb_master_MasterDcl_GrantRevokeRole", Unit::Bytes, StatisticKind::Counter),
    ("service_request_bytes_yb_master_MasterDdl_AlterNamespace", Unit::Bytes, StatisticKind::Counter),
    ("service_request_bytes_yb_master_MasterDdl_AlterTable", Unit::Bytes, StatisticKind::Counter),
    ("service_request_bytes_yb_master_MasterDdl_BackfillIndex", Unit::Bytes, StatisticKind::Counter),
    ("service_request_bytes_yb_master_MasterDdl_CreateNamespace", Unit::Bytes, StatisticKind::Counter),
    ("service_request_bytes_yb_master_MasterDdl_CreateTable", Unit::Bytes, StatisticKind::Counter),
    ("service_request_bytes_yb_master_MasterDdl_CreateTablegroup", Unit::Bytes, StatisticKind::Counter),
    ("service_request_bytes_yb_master_MasterDdl_CreateUDType", Unit::Bytes, StatisticKind::Counter),
    ("service_request_bytes_yb_master_MasterDdl_DeleteNamespace", Unit::Bytes, StatisticKind::Counter),
    ("service_request_bytes_yb_master_MasterDdl_DeleteTable", Unit::Bytes, StatisticKind::Counter),
    ("service_request_bytes_yb_master_MasterDdl_DeleteTablegroup", Unit::Bytes, StatisticKind::Counter),
    ("service_request_bytes_yb_master_MasterDdl_DeleteUDType", Unit::Bytes, StatisticKind::Counter),
    ("service_request_bytes_yb_master_MasterDdl_GetBackfillJobs", Unit::Bytes, StatisticKind::Counter),
    ("service_request_bytes_yb_master_MasterDdl_GetColocatedTabletSchema", Unit::Bytes, StatisticKind::Counter),
    ("service_request_bytes_yb_master_MasterDdl_GetNamespaceInfo", Unit::Bytes, StatisticKind::Counter),
    ("service_request_bytes_yb_master_MasterDdl_GetTableDiskSize", Unit::Bytes, StatisticKind::Counter),
    ("service_request_bytes_yb_master_MasterDdl_GetTableSchema", Unit::Bytes, StatisticKind::Counter),
    ("service_request_bytes_yb_master_MasterDdl_GetTablegroupSchema", Unit::Bytes, StatisticKind::Counter),
    ("service_request_bytes_yb_master_MasterDdl_GetUDTypeInfo", Unit::Bytes, StatisticKind::Counter),
    ("service_request_bytes_yb_master_MasterDdl_IsAlterTableDone", Unit::Bytes, StatisticKind::Counter),
    ("service_request_bytes_yb_master_MasterDdl_IsCreateNamespaceDone", Unit::Bytes, StatisticKind::Counter),
    ("service_request_bytes_yb_master_MasterDdl_IsCreateTableDone", Unit::Bytes, StatisticKind::Counter),
    ("service_request_bytes_yb_master_MasterDdl_IsDeleteNamespaceDone", Unit::Bytes, StatisticKind::Counter),
    ("service_request_bytes_yb_master_MasterDdl_IsDeleteTableDone", Unit::Bytes, StatisticKind::Counter),
    ("service_request_bytes_yb_master_MasterDdl_IsTruncateTableDone", Unit::Bytes, StatisticKind::Counter),
    ("service_request_bytes_yb_master_MasterDdl_LaunchBackfillIndexForTable", Unit::Bytes, StatisticKind::Counter),
    ("service_request_bytes_yb_master_MasterDdl_ListNamespaces", Unit::Bytes, StatisticKind::Counter),
    ("service_request_bytes_yb_master_MasterDdl_ListTablegroups", Unit::Bytes, StatisticKind::Counter),
    ("service_request_bytes_yb_master_MasterDdl_ListTables", Unit::Bytes, StatisticKind::Counter), // 2.15.3.0
    ("service_request_bytes_yb_master_MasterDdl_ListUDTypes", Unit::Bytes, StatisticKind::Counter),
    ("service_request_bytes_yb_master_MasterDdl_TruncateTable", Unit::Bytes, StatisticKind::Counter),
    ("service_request_bytes_yb_master_MasterEncryption_AddUniverseKeys", Unit::Bytes, StatisticKind::Counter),
    ("service_request_bytes_yb_master_MasterEncryption_ChangeEncryptionInfo", Unit::Bytes, StatisticKind::Counter),
    ("service_request_bytes_yb_master_MasterEncryption_GetUniverseKeyRegistry", Unit::Bytes, StatisticKind::Counter),
    ("service_request_bytes_yb_master_MasterEncryption_HasUniverseKeyInMemory", Unit::Bytes, StatisticKind::Counter),
    ("service_request_bytes_yb_master_MasterEncryption_IsEncryptionEnabled", Unit::Bytes, StatisticKind::Counter),
    ("service_request_bytes_yb_master_MasterHeartbeat_TSHeartbeat", Unit::Bytes, StatisticKind::Counter),
    ("service_request_bytes_yb_master_MasterReplication_AlterUniverseReplication", Unit::Bytes, StatisticKind::Counter),
    ("service_request_bytes_yb_master_MasterReplication_ChangeXClusterRole", Unit::Bytes, StatisticKind::Counter), // 2.17
    ("service_request_bytes_yb_master_MasterReplication_CreateCDCStream", Unit::Bytes, StatisticKind::Counter),
    ("service_request_bytes_yb_master_MasterReplication_DeleteCDCStream", Unit::Bytes, StatisticKind::Counter),
    ("service_request_bytes_yb_master_MasterReplication_DeleteUniverseReplication", Unit::Bytes, StatisticKind::Counter),
    ("service_request_bytes_yb_master_MasterReplication_GetCDCDBStreamInfo", Unit::Bytes, StatisticKind::Counter),
    ("service_request_bytes_yb_master_MasterReplication_GetCDCStream", Unit::Bytes, StatisticKind::Counter),
    ("service_request_bytes_yb_master_MasterReplication_GetReplicationStatus", Unit::Bytes, StatisticKind::Counter), // 2.17
    ("service_request_bytes_yb_master_MasterReplication_GetTableSchemaFromSysCatalog", Unit::Bytes, StatisticKind::Counter), // 2.17.2
    ("service_request_bytes_yb_master_MasterReplication_GetUDTypeMetadata", Unit::Bytes, StatisticKind::Counter),
    ("service_request_bytes_yb_master_MasterReplication_GetUniverseReplication", Unit::Bytes, StatisticKind::Counter),
    ("service_request_bytes_yb_master_MasterReplication_GetXClusterEstimatedDataLoss", Unit::Bytes, StatisticKind::Counter), // 2.17
    ("service_request_bytes_yb_master_MasterReplication_GetXClusterSafeTime", Unit::Bytes, StatisticKind::Counter), // 2.17
    ("service_request_bytes_yb_master_MasterReplication_IsBootstrapRequired", Unit::Bytes, StatisticKind::Counter),
    ("service_request_bytes_yb_master_MasterReplication_IsSetupUniverseReplicationDone", Unit::Bytes, StatisticKind::Counter),
    ("service_request_bytes_yb_master_MasterReplication_ListCDCStreams", Unit::Bytes, StatisticKind::Counter),
    ("service_request_bytes_yb_master_MasterReplication_SetUniverseReplicationEnabled", Unit::Bytes, StatisticKind::Counter),
    ("service_request_bytes_yb_master_MasterReplication_SetupNSUniverseReplication", Unit::Bytes, StatisticKind::Counter),
    ("service_request_bytes_yb_master_MasterReplication_SetupUniverseReplication", Unit::Bytes, StatisticKind::Counter),
    ("service_request_bytes_yb_master_MasterReplication_UpdateCDCStream", Unit::Bytes, StatisticKind::Counter),
    ("service_request_bytes_yb_master_MasterReplication_UpdateConsumerOnProducerMetadata", Unit::Bytes, StatisticKind::Counter),
    ("service_request_bytes_yb_master_MasterReplication_UpdateConsumerOnProducerSplit", Unit::Bytes, StatisticKind::Counter),
    ("service_request_bytes_yb_master_MasterReplication_ValidateReplicationInfo", Unit::Bytes, StatisticKind::Counter),
    ("service_request_bytes_yb_master_MasterReplication_WaitForReplicationDrain", Unit::Bytes, StatisticKind::Counter),
    ("service_request_bytes_yb_master_MasterService_AddUniverseKeys", Unit::Bytes, StatisticKind::Counter),
    ("service_request_bytes_yb_master_MasterService_AlterNamespace", Unit::Bytes, StatisticKind::Counter),
    ("service_request_bytes_yb_master_MasterService_AlterRole", Unit::Bytes, StatisticKind::Counter),
    ("service_request_bytes_yb_master_MasterService_AlterTable", Unit::Bytes, StatisticKind::Counter),
    ("service_request_bytes_yb_master_MasterService_AlterUniverseReplication", Unit::Bytes, StatisticKind::Counter),
    ("service_request_bytes_yb_master_MasterService_AreLoadersOnPreferredOnly", Unit::Bytes, StatisticKind::Counter),
    ("service_request_bytes_yb_master_MasterService_BackfillIndex", Unit::Bytes, StatisticKind::Counter),
    ("service_request_bytes_yb_master_MasterService_ChangeEncryptionInfo", Unit::Bytes, StatisticKind::Counter),
    ("service_request_bytes_yb_master_MasterService_ChangeLoadBalancerState", Unit::Bytes, StatisticKind::Counter),
    ("service_request_bytes_yb_master_MasterService_ChangeMasterClusterConfig", Unit::Bytes, StatisticKind::Counter),
    ("service_request_bytes_yb_master_MasterService_CreateCDCStream", Unit::Bytes, StatisticKind::Counter),
    ("service_request_bytes_yb_master_MasterService_CreateNamespace", Unit::Bytes, StatisticKind::Counter),
    ("service_request_bytes_yb_master_MasterService_CreateRole", Unit::Bytes, StatisticKind::Counter),
    ("service_request_bytes_yb_master_MasterService_CreateTable", Unit::Bytes, StatisticKind::Counter),
    ("service_request_bytes_yb_master_MasterService_CreateTablegroup", Unit::Bytes, StatisticKind::Counter),
    ("service_request_bytes_yb_master_MasterService_CreateTransactionStatusTable", Unit::Bytes, StatisticKind::Counter),
    ("service_request_bytes_yb_master_MasterService_CreateUDType", Unit::Bytes, StatisticKind::Counter),
    ("service_request_bytes_yb_master_MasterService_DdlLog", Unit::Bytes, StatisticKind::Counter),
    ("service_request_bytes_yb_master_MasterService_DeleteCDCStream", Unit::Bytes, StatisticKind::Counter),
    ("service_request_bytes_yb_master_MasterService_DeleteNamespace", Unit::Bytes, StatisticKind::Counter),
    ("service_request_bytes_yb_master_MasterService_DeleteNotServingTablet", Unit::Bytes, StatisticKind::Counter),
    ("service_request_bytes_yb_master_MasterService_DeleteRole", Unit::Bytes, StatisticKind::Counter),
    ("service_request_bytes_yb_master_MasterService_DeleteTable", Unit::Bytes, StatisticKind::Counter),
    ("service_request_bytes_yb_master_MasterService_DeleteTablegroup", Unit::Bytes, StatisticKind::Counter),
    ("service_request_bytes_yb_master_MasterService_DeleteUDType", Unit::Bytes, StatisticKind::Counter),
    ("service_request_bytes_yb_master_MasterService_DeleteUniverseReplication", Unit::Bytes, StatisticKind::Counter),
    ("service_request_bytes_yb_master_MasterService_DumpState", Unit::Bytes, StatisticKind::Counter),
    ("service_request_bytes_yb_master_MasterService_FlushTables", Unit::Bytes, StatisticKind::Counter),
    ("service_request_bytes_yb_master_MasterService_GetBackfillJobs", Unit::Bytes, StatisticKind::Counter),
    ("service_request_bytes_yb_master_MasterService_GetCDCStream", Unit::Bytes, StatisticKind::Counter),
    ("service_request_bytes_yb_master_MasterService_GetColocatedTabletSchema", Unit::Bytes, StatisticKind::Counter),
    ("service_request_bytes_yb_master_MasterService_GetLeaderBlacklistCompletion", Unit::Bytes, StatisticKind::Counter),
    ("service_request_bytes_yb_master_MasterService_GetLoadBalancerState", Unit::Bytes, StatisticKind::Counter),
    ("service_request_bytes_yb_master_MasterService_GetLoadMoveCompletion", Unit::Bytes, StatisticKind::Counter),
    ("service_request_bytes_yb_master_MasterService_GetMasterClusterConfig", Unit::Bytes, StatisticKind::Counter),
    ("service_request_bytes_yb_master_MasterService_GetMasterRegistration", Unit::Bytes, StatisticKind::Counter),
    ("service_request_bytes_yb_master_MasterService_GetNamespaceInfo", Unit::Bytes, StatisticKind::Counter),
    ("service_request_bytes_yb_master_MasterService_GetPermissions", Unit::Bytes, StatisticKind::Counter),
    ("service_request_bytes_yb_master_MasterService_GetTableLocations", Unit::Bytes, StatisticKind::Counter),
    ("service_request_bytes_yb_master_MasterService_GetTableSchema", Unit::Bytes, StatisticKind::Counter),
    ("service_request_bytes_yb_master_MasterService_GetTabletLocations", Unit::Bytes, StatisticKind::Counter),
    ("service_request_bytes_yb_master_MasterService_GetUDTypeInfo", Unit::Bytes, StatisticKind::Counter),
    ("service_request_bytes_yb_master_MasterService_GetUniverseKeyRegistry", Unit::Bytes, StatisticKind::Counter),
    ("service_request_bytes_yb_master_MasterService_GetUniverseReplication", Unit::Bytes, StatisticKind::Counter),
    ("service_request_bytes_yb_master_MasterService_GetYsqlCatalogConfig", Unit::Bytes, StatisticKind::Counter),
    ("service_request_bytes_yb_master_MasterService_GrantRevokePermission", Unit::Bytes, StatisticKind::Counter),
    ("service_request_bytes_yb_master_MasterService_GrantRevokeRole", Unit::Bytes, StatisticKind::Counter),
    ("service_request_bytes_yb_master_MasterService_HasUniverseKeyInMemory", Unit::Bytes, StatisticKind::Counter),
    ("service_request_bytes_yb_master_MasterService_IsAlterTableDone", Unit::Bytes, StatisticKind::Counter),
    ("service_request_bytes_yb_master_MasterService_IsCreateNamespaceDone", Unit::Bytes, StatisticKind::Counter),
    ("service_request_bytes_yb_master_MasterService_IsCreateTableDone", Unit::Bytes, StatisticKind::Counter),
    ("service_request_bytes_yb_master_MasterService_IsDeleteNamespaceDone", Unit::Bytes, StatisticKind::Counter),
    ("service_request_bytes_yb_master_MasterService_IsDeleteTableDone", Unit::Bytes, StatisticKind::Counter),
    ("service_request_bytes_yb_master_MasterService_IsEncryptionEnabled", Unit::Bytes, StatisticKind::Counter),
    ("service_request_bytes_yb_master_MasterService_IsFlushTablesDone", Unit::Bytes, StatisticKind::Counter),
    ("service_request_bytes_yb_master_MasterService_IsInitDbDone", Unit::Bytes, StatisticKind::Counter),
    ("service_request_bytes_yb_master_MasterService_IsLoadBalanced", Unit::Bytes, StatisticKind::Counter),
    ("service_request_bytes_yb_master_MasterService_IsLoadBalancerIdle", Unit::Bytes, StatisticKind::Counter),
    ("service_request_bytes_yb_master_MasterService_IsMasterLeaderServiceReady", Unit::Bytes, StatisticKind::Counter),
    ("service_request_bytes_yb_master_MasterService_IsSetupUniverseReplicationDone", Unit::Bytes, StatisticKind::Counter),
    ("service_request_bytes_yb_master_MasterService_LaunchBackfillIndexForTable", Unit::Bytes, StatisticKind::Counter),
    ("service_request_bytes_yb_master_MasterService_ListCDCStreams", Unit::Bytes, StatisticKind::Counter),
    ("service_request_bytes_yb_master_MasterService_ListLiveTabletServers", Unit::Bytes, StatisticKind::Counter),
    ("service_request_bytes_yb_master_MasterService_ListMasterRaftPeers", Unit::Bytes, StatisticKind::Counter),
    ("service_request_bytes_yb_master_MasterService_ListMasters", Unit::Bytes, StatisticKind::Counter),
    ("service_request_bytes_yb_master_MasterService_ListNamespaces", Unit::Bytes, StatisticKind::Counter),
    ("service_request_bytes_yb_master_MasterService_ListTablegroups", Unit::Bytes, StatisticKind::Counter),
    ("service_request_bytes_yb_master_MasterService_ListTables", Unit::Bytes, StatisticKind::Counter),
    ("service_request_bytes_yb_master_MasterService_ListTabletServers", Unit::Bytes, StatisticKind::Counter),
    ("service_request_bytes_yb_master_MasterService_ListUDType", Unit::Bytes, StatisticKind::Counter),
    ("service_request_bytes_yb_master_MasterService_RedisConfigGet", Unit::Bytes, StatisticKind::Counter),
    ("service_request_bytes_yb_master_MasterService_RedisConfigSet", Unit::Bytes, StatisticKind::Counter),
    ("service_request_bytes_yb_master_MasterService_RemovedMasterUpdate", Unit::Bytes, StatisticKind::Counter),
    ("service_request_bytes_yb_master_MasterService_ReservePgsqlOids", Unit::Bytes, StatisticKind::Counter),
    ("service_request_bytes_yb_master_MasterService_SetPreferredZones", Unit::Bytes, StatisticKind::Counter),
    ("service_request_bytes_yb_master_MasterService_SetUniverseReplication", Unit::Bytes, StatisticKind::Counter),
    ("service_request_bytes_yb_master_MasterService_SetupUniverseReplication", Unit::Bytes, StatisticKind::Counter),
    ("service_request_bytes_yb_master_MasterService_SplitTablet", Unit::Bytes, StatisticKind::Counter),
    ("service_request_bytes_yb_master_MasterService_TSHeartbeat", Unit::Bytes, StatisticKind::Counter),
    ("service_request_bytes_yb_master_MasterService_TruncateTable", Unit::Bytes, StatisticKind::Counter),
    ("service_request_bytes_yb_master_MasterService_UpdateCDCStream", Unit::Bytes, StatisticKind::Counter),
    ("service_request_bytes_yb_server_GenericService_FlushCoverage", Unit::Bytes, StatisticKind::Counter),
    ("service_request_bytes_yb_server_GenericService_GetAutoFlagsConfigVersion", Unit::Bytes, StatisticKind::Counter),
    ("service_request_bytes_yb_server_GenericService_GetFlag", Unit::Bytes, StatisticKind::Counter),
    ("service_request_bytes_yb_server_GenericService_GetStatus", Unit::Bytes, StatisticKind::Counter),
    ("service_request_bytes_yb_server_GenericService_Ping", Unit::Bytes, StatisticKind::Counter),
    ("service_request_bytes_yb_server_GenericService_RefreshFlags", Unit::Bytes, StatisticKind::Counter),
    ("service_request_bytes_yb_server_GenericService_ReloadCertificates", Unit::Bytes, StatisticKind::Counter),
    ("service_request_bytes_yb_server_GenericService_ServerClock", Unit::Bytes, StatisticKind::Counter),
    ("service_request_bytes_yb_server_GenericService_SetFlag", Unit::Bytes, StatisticKind::Counter),
    ("service_request_bytes_yb_tserver_PgClientService_AlterDatabase", Unit::Bytes, StatisticKind::Counter),
    ("service_request_bytes_yb_tserver_PgClientService_AlterTable", Unit::Bytes, StatisticKind::Counter),
    ("service_request_bytes_yb_tserver_PgClientService_BackfillIndex", Unit::Bytes, StatisticKind::Counter),
    ("service_request_bytes_yb_tserver_PgClientService_CheckIfPitrActive", Unit::Bytes, StatisticKind::Counter),
    ("service_request_bytes_yb_tserver_PgClientService_CreateDatabase", Unit::Bytes, StatisticKind::Counter),
    ("service_request_bytes_yb_tserver_PgClientService_CreateSequencesDataTable", Unit::Bytes, StatisticKind::Counter),
    ("service_request_bytes_yb_tserver_PgClientService_CreateTable", Unit::Bytes, StatisticKind::Counter),
    ("service_request_bytes_yb_tserver_PgClientService_CreateTablegroup", Unit::Bytes, StatisticKind::Counter),
    ("service_request_bytes_yb_tserver_PgClientService_DeleteDBSequences", Unit::Bytes, StatisticKind::Counter),
    ("service_request_bytes_yb_tserver_PgClientService_DeleteSequenceTuple", Unit::Bytes, StatisticKind::Counter),
    ("service_request_bytes_yb_tserver_PgClientService_DropDatabase", Unit::Bytes, StatisticKind::Counter),
    ("service_request_bytes_yb_tserver_PgClientService_DropTable", Unit::Bytes, StatisticKind::Counter),
    ("service_request_bytes_yb_tserver_PgClientService_DropTablegroup", Unit::Bytes, StatisticKind::Counter),
    ("service_request_bytes_yb_tserver_PgClientService_FinishTransaction", Unit::Bytes, StatisticKind::Counter),
    ("service_request_bytes_yb_tserver_PgClientService_GetCatalogMasterVersion", Unit::Bytes, StatisticKind::Counter),
    ("service_request_bytes_yb_tserver_PgClientService_GetDatabaseInfo", Unit::Bytes, StatisticKind::Counter),
    ("service_request_bytes_yb_tserver_PgClientService_GetTableDiskSize", Unit::Bytes, StatisticKind::Counter),
    ("service_request_bytes_yb_tserver_PgClientService_GetTserverCatalogVersionInfo", Unit::Bytes, StatisticKind::Counter), // 2.17
    ("service_request_bytes_yb_tserver_PgClientService_Heartbeat", Unit::Bytes, StatisticKind::Counter),
    ("service_request_bytes_yb_tserver_PgClientService_InsertSequenceTuple", Unit::Bytes, StatisticKind::Counter),
    ("service_request_bytes_yb_tserver_PgClientService_IsInitDbDone", Unit::Bytes, StatisticKind::Counter),
    ("service_request_bytes_yb_tserver_PgClientService_ListLiveTabletServers", Unit::Bytes, StatisticKind::Counter),
    ("service_request_bytes_yb_tserver_PgClientService_OpenTable", Unit::Bytes, StatisticKind::Counter),
    ("service_request_bytes_yb_tserver_PgClientService_Perform", Unit::Bytes, StatisticKind::Counter),
    ("service_request_bytes_yb_tserver_PgClientService_ReadSequenceTuple", Unit::Bytes, StatisticKind::Counter),
    ("service_request_bytes_yb_tserver_PgClientService_ReserveOids", Unit::Bytes, StatisticKind::Counter),
    ("service_request_bytes_yb_tserver_PgClientService_RollbackToSubTransaction", Unit::Bytes, StatisticKind::Counter),
    ("service_request_bytes_yb_tserver_PgClientService_SetActiveSubTransaction", Unit::Bytes, StatisticKind::Counter),
    ("service_request_bytes_yb_tserver_PgClientService_TabletServerCount", Unit::Bytes, StatisticKind::Counter),
    ("service_request_bytes_yb_tserver_PgClientService_TruncateTable", Unit::Bytes, StatisticKind::Counter),
    ("service_request_bytes_yb_tserver_PgClientService_UpdateSequenceTuple", Unit::Bytes, StatisticKind::Counter),
    ("service_request_bytes_yb_tserver_PgClientService_ValidatePlacement", Unit::Bytes, StatisticKind::Counter),
    ("service_request_bytes_yb_tserver_RemoteBootstrapService_BeginRemoteBootstrapSession", Unit::Bytes, StatisticKind::Counter),
    ("service_request_bytes_yb_tserver_RemoteBootstrapService_ChangePeerRole", Unit::Bytes, StatisticKind::Counter),
    ("service_request_bytes_yb_tserver_RemoteBootstrapService_CheckRemoteBootstrapSessionActive", Unit::Bytes, StatisticKind::Counter),
    ("service_request_bytes_yb_tserver_RemoteBootstrapService_CheckSessionActive", Unit::Bytes, StatisticKind::Counter),
    ("service_request_bytes_yb_tserver_RemoteBootstrapService_EndRemoteBootstrapSession", Unit::Bytes, StatisticKind::Counter),
    ("service_request_bytes_yb_tserver_RemoteBootstrapService_FetchData", Unit::Bytes, StatisticKind::Counter),
    ("service_request_bytes_yb_tserver_RemoteBootstrapService_KeepLogAnchorAlive", Unit::Bytes, StatisticKind::Counter),
    ("service_request_bytes_yb_tserver_RemoteBootstrapService_RegisterLogAnchor", Unit::Bytes, StatisticKind::Counter),
    ("service_request_bytes_yb_tserver_RemoteBootstrapService_RemoveRemoteBootstrapSession", Unit::Bytes, StatisticKind::Counter),
    ("service_request_bytes_yb_tserver_RemoteBootstrapService_RemoveSession", Unit::Bytes, StatisticKind::Counter),
    ("service_request_bytes_yb_tserver_RemoteBootstrapService_UnregisterLogAnchor", Unit::Bytes, StatisticKind::Counter),
    ("service_request_bytes_yb_tserver_RemoteBootstrapService_UpdateLogAnchor", Unit::Bytes, StatisticKind::Counter),
    ("service_request_bytes_yb_tserver_TabletServerAdminService_AddTableToTablet", Unit::Bytes, StatisticKind::Counter),
    ("service_request_bytes_yb_tserver_TabletServerAdminService_AlterSchema", Unit::Bytes, StatisticKind::Counter),
    ("service_request_bytes_yb_tserver_TabletServerAdminService_BackfillDone", Unit::Bytes, StatisticKind::Counter),
    ("service_request_bytes_yb_tserver_TabletServerAdminService_BackfillIndex", Unit::Bytes, StatisticKind::Counter),
    ("service_request_bytes_yb_tserver_TabletServerAdminService_CopartitionTable", Unit::Bytes, StatisticKind::Counter),
    ("service_request_bytes_yb_tserver_TabletServerAdminService_CountIntents", Unit::Bytes, StatisticKind::Counter),
    ("service_request_bytes_yb_tserver_TabletServerAdminService_CreateTablet", Unit::Bytes, StatisticKind::Counter),
    ("service_request_bytes_yb_tserver_TabletServerAdminService_DeleteTablet", Unit::Bytes, StatisticKind::Counter),
    ("service_request_bytes_yb_tserver_TabletServerAdminService_FlushTablets", Unit::Bytes, StatisticKind::Counter),
    ("service_request_bytes_yb_tserver_TabletServerAdminService_GetSafeTime", Unit::Bytes, StatisticKind::Counter),
    ("service_request_bytes_yb_tserver_TabletServerAdminService_PrepareDeleteTransactionTablet", Unit::Bytes, StatisticKind::Counter), // 2.17
    ("service_request_bytes_yb_tserver_TabletServerAdminService_PrepareDeleteTransactionTablet", Unit::Bytes, StatisticKind::Counter), // 2.17
    ("service_request_bytes_yb_tserver_TabletServerAdminService_RemoveTableFromTablet", Unit::Bytes, StatisticKind::Counter),
    ("service_request_bytes_yb_tserver_TabletServerAdminService_SplitTablet", Unit::Bytes, StatisticKind::Counter),
    ("service_request_bytes_yb_tserver_TabletServerAdminService_TabletSnapshotOp", Unit::Bytes, StatisticKind::Counter),
    ("service_request_bytes_yb_tserver_TabletServerAdminService_TestRetry", Unit::Bytes, StatisticKind::Counter),
    ("service_request_bytes_yb_tserver_TabletServerAdminService_UpdateConsensus", Unit::Bytes, StatisticKind::Counter),
    ("service_request_bytes_yb_tserver_TabletServerAdminService_UpdateTransactionTablesVersion", Unit::Bytes, StatisticKind::Counter), // 2.17
    ("service_request_bytes_yb_tserver_TabletServerAdminService_UpgradeYsql", Unit::Bytes, StatisticKind::Counter),
    ("service_request_bytes_yb_tserver_TabletServerBackupService_TabletSnapshotOp", Unit::Bytes, StatisticKind::Counter),
    ("service_request_bytes_yb_tserver_TabletServerService_AbortTransaction", Unit::Bytes, StatisticKind::Counter),
    ("service_request_bytes_yb_tserver_TabletServerService_Checksum", Unit::Bytes, StatisticKind::Counter),
    ("service_request_bytes_yb_tserver_TabletServerService_GetLogLocation", Unit::Bytes, StatisticKind::Counter),
    ("service_request_bytes_yb_tserver_TabletServerService_GetMasterAddresses", Unit::Bytes, StatisticKind::Counter),
    ("service_request_bytes_yb_tserver_TabletServerService_GetSharedData", Unit::Bytes, StatisticKind::Counter),
    ("service_request_bytes_yb_tserver_TabletServerService_GetSplitKey", Unit::Bytes, StatisticKind::Counter),
    ("service_request_bytes_yb_tserver_TabletServerService_GetTabletStatus", Unit::Bytes, StatisticKind::Counter),
    ("service_request_bytes_yb_tserver_TabletServerService_GetTransactionStatus", Unit::Bytes, StatisticKind::Counter),
    ("service_request_bytes_yb_tserver_TabletServerService_GetTransactionStatusAtParticipant", Unit::Bytes, StatisticKind::Counter),
    ("service_request_bytes_yb_tserver_TabletServerService_GetTserverCatalogVersionInfo", Unit::Bytes, StatisticKind::Counter),
    ("service_request_bytes_yb_tserver_TabletServerService_ImportData", Unit::Bytes, StatisticKind::Counter),
    ("service_request_bytes_yb_tserver_TabletServerService_IsTabletServerReady", Unit::Bytes, StatisticKind::Counter),
    ("service_request_bytes_yb_tserver_TabletServerService_ListMasterServers", Unit::Bytes, StatisticKind::Counter), // 2.17.2
    ("service_request_bytes_yb_tserver_TabletServerService_ListTablets", Unit::Bytes, StatisticKind::Counter),
    ("service_request_bytes_yb_tserver_TabletServerService_ListTabletsForTabletServer", Unit::Bytes, StatisticKind::Counter),
    ("service_request_bytes_yb_tserver_TabletServerService_NoOp", Unit::Bytes, StatisticKind::Counter),
    ("service_request_bytes_yb_tserver_TabletServerService_ProbeTransactionDeadlock", Unit::Bytes, StatisticKind::Counter),
    ("service_request_bytes_yb_tserver_TabletServerService_Publish", Unit::Bytes, StatisticKind::Counter),
    ("service_request_bytes_yb_tserver_TabletServerService_Read", Unit::Bytes, StatisticKind::Counter),
    ("service_request_bytes_yb_tserver_TabletServerService_TakeTransaction", Unit::Bytes, StatisticKind::Counter),
    ("service_request_bytes_yb_tserver_TabletServerService_Truncate", Unit::Bytes, StatisticKind::Counter),
    ("service_request_bytes_yb_tserver_TabletServerService_UpdateTransaction", Unit::Bytes, StatisticKind::Counter),
    ("service_request_bytes_yb_tserver_TabletServerService_UpdateTransactionStatusLocation", Unit::Bytes, StatisticKind::Counter),
    ("service_request_bytes_yb_tserver_TabletServerService_UpdateTransactionWaitingForStatus", Unit::Bytes, StatisticKind::Counter),
    ("service_request_bytes_yb_tserver_TabletServerService_VerifyTableRowRange", Unit::Bytes, StatisticKind::Counter),
    ("service_request_bytes_yb_tserver_TabletServerService_Write", Unit::Bytes, StatisticKind::Counter),
    ("service_response_bytes_yb_cdc_CDCService_BootstrapProducer", Unit::Bytes, StatisticKind::Counter),
    ("service_response_bytes_yb_cdc_CDCService_CheckReplicationDrain", Unit::Bytes, StatisticKind::Counter),
    ("service_response_bytes_yb_cdc_CDCService_CreateCDCStream", Unit::Bytes, StatisticKind::Counter),
    ("service_response_bytes_yb_cdc_CDCService_DeleteCDCStream", Unit::Bytes, StatisticKind::Counter),
    ("service_response_bytes_yb_cdc_CDCService_GetCDCDBStreamInfo", Unit::Bytes, StatisticKind::Counter),
    ("service_response_bytes_yb_cdc_CDCService_GetChanges", Unit::Bytes, StatisticKind::Counter),
    ("service_response_bytes_yb_cdc_CDCService_GetCheckpoint", Unit::Bytes, StatisticKind::Counter),
    ("service_response_bytes_yb_cdc_CDCService_GetLatestEntryOpId", Unit::Bytes, StatisticKind::Counter),
    ("service_response_bytes_yb_cdc_CDCService_GetTabletListToPollForCDC", Unit::Bytes, StatisticKind::Counter), // 2.17
    ("service_response_bytes_yb_cdc_CDCService_IsBootstrapRequired", Unit::Bytes, StatisticKind::Counter),
    ("service_response_bytes_yb_cdc_CDCService_ListTablets", Unit::Bytes, StatisticKind::Counter),
    ("service_response_bytes_yb_cdc_CDCService_SetCDCCheckpoint", Unit::Bytes, StatisticKind::Counter),
    ("service_response_bytes_yb_cdc_CDCService_UpdateCdcReplicatedIndex", Unit::Bytes, StatisticKind::Counter),
    ("service_response_bytes_yb_consensus_ConsensusService_ChangeConfig", Unit::Bytes, StatisticKind::Counter),
    ("service_response_bytes_yb_consensus_ConsensusService_GetConsensusState", Unit::Bytes, StatisticKind::Counter),
    ("service_response_bytes_yb_consensus_ConsensusService_GetLastOpId", Unit::Bytes, StatisticKind::Counter),
    ("service_response_bytes_yb_consensus_ConsensusService_GetNodeInstance", Unit::Bytes, StatisticKind::Counter),
    ("service_response_bytes_yb_consensus_ConsensusService_LeaderElectionLost", Unit::Bytes, StatisticKind::Counter),
    ("service_response_bytes_yb_consensus_ConsensusService_LeaderStepDown", Unit::Bytes, StatisticKind::Counter),
    ("service_response_bytes_yb_consensus_ConsensusService_MultiRaftUpdateConsensus", Unit::Bytes, StatisticKind::Counter),
    ("service_response_bytes_yb_consensus_ConsensusService_RequestConsensusVote", Unit::Bytes, StatisticKind::Counter),
    ("service_response_bytes_yb_consensus_ConsensusService_RunLeaderElection", Unit::Bytes, StatisticKind::Counter),
    ("service_response_bytes_yb_consensus_ConsensusService_StartRemoteBootstrap", Unit::Bytes, StatisticKind::Counter),
    ("service_response_bytes_yb_consensus_ConsensusService_UnsafeChangeConfig", Unit::Bytes, StatisticKind::Counter),
    ("service_response_bytes_yb_consensus_ConsensusService_UpdateConsensus", Unit::Bytes, StatisticKind::Counter),
    ("service_response_bytes_yb_master_MasterAdmin_AddTransactionStatusTablet", Unit::Bytes, StatisticKind::Counter),
    ("service_response_bytes_yb_master_MasterAdmin_CheckIfPitrActive", Unit::Bytes, StatisticKind::Counter),
    ("service_response_bytes_yb_master_MasterAdmin_CompactSysCatalog", Unit::Bytes, StatisticKind::Counter),
    ("service_response_bytes_yb_master_MasterAdmin_CreateTransactionStatusTable", Unit::Bytes, StatisticKind::Counter),
    ("service_response_bytes_yb_master_MasterAdmin_DdlLog", Unit::Bytes, StatisticKind::Counter),
    ("service_response_bytes_yb_master_MasterAdmin_DeleteNotServingTablet", Unit::Bytes, StatisticKind::Counter),
    ("service_response_bytes_yb_master_MasterAdmin_DisableTabletSplitting", Unit::Bytes, StatisticKind::Counter),
    ("service_response_bytes_yb_master_MasterAdmin_FlushSysCatalog", Unit::Bytes, StatisticKind::Counter),
    ("service_response_bytes_yb_master_MasterAdmin_FlushTables", Unit::Bytes, StatisticKind::Counter),
    ("service_response_bytes_yb_master_MasterAdmin_IsFlushTablesDone", Unit::Bytes, StatisticKind::Counter),
    ("service_response_bytes_yb_master_MasterAdmin_IsInitDbDone", Unit::Bytes, StatisticKind::Counter),
    ("service_response_bytes_yb_master_MasterAdmin_IsTabletSplittingComplete", Unit::Bytes, StatisticKind::Counter),
    ("service_response_bytes_yb_master_MasterAdmin_SplitTablet", Unit::Bytes, StatisticKind::Counter),
    ("service_response_bytes_yb_master_MasterBackupService_CreateSnapshot", Unit::Bytes, StatisticKind::Counter),
    ("service_response_bytes_yb_master_MasterBackupService_CreateSnapshotSchedule", Unit::Bytes, StatisticKind::Counter),
    ("service_response_bytes_yb_master_MasterBackupService_DeleteSnapshot", Unit::Bytes, StatisticKind::Counter),
    ("service_response_bytes_yb_master_MasterBackupService_DeleteSnapshotSchedule", Unit::Bytes, StatisticKind::Counter),
    ("service_response_bytes_yb_master_MasterBackupService_ImportSnapshotMeta", Unit::Bytes, StatisticKind::Counter),
    ("service_response_bytes_yb_master_MasterBackupService_ListSnapshotRestorations", Unit::Bytes, StatisticKind::Counter),
    ("service_response_bytes_yb_master_MasterBackupService_ListSnapshotSchedules", Unit::Bytes, StatisticKind::Counter),
    ("service_response_bytes_yb_master_MasterBackupService_ListSnapshots", Unit::Bytes, StatisticKind::Counter),
    ("service_response_bytes_yb_master_MasterBackupService_RestoreSnapshot", Unit::Bytes, StatisticKind::Counter),
    ("service_response_bytes_yb_master_MasterBackup_CreateSnapshot", Unit::Bytes, StatisticKind::Counter),
    ("service_response_bytes_yb_master_MasterBackup_CreateSnapshotSchedule", Unit::Bytes, StatisticKind::Counter),
    ("service_response_bytes_yb_master_MasterBackup_DeleteSnapshot", Unit::Bytes, StatisticKind::Counter),
    ("service_response_bytes_yb_master_MasterBackup_DeleteSnapshotSchedule", Unit::Bytes, StatisticKind::Counter),
    ("service_response_bytes_yb_master_MasterBackup_EditSnapshotSchedule", Unit::Bytes, StatisticKind::Counter),
    ("service_response_bytes_yb_master_MasterBackup_ImportSnapshotMeta", Unit::Bytes, StatisticKind::Counter),
    ("service_response_bytes_yb_master_MasterBackup_ListSnapshotRestorations", Unit::Bytes, StatisticKind::Counter),
    ("service_response_bytes_yb_master_MasterBackup_ListSnapshotSchedules", Unit::Bytes, StatisticKind::Counter),
    ("service_response_bytes_yb_master_MasterBackup_ListSnapshots", Unit::Bytes, StatisticKind::Counter),
    ("service_response_bytes_yb_master_MasterBackup_RestoreSnapshot", Unit::Bytes, StatisticKind::Counter),
    ("service_response_bytes_yb_master_MasterBackup_RestoreSnapshotSchedule", Unit::Bytes, StatisticKind::Counter), // 2.17
    ("service_response_bytes_yb_master_MasterClient_GetTableLocations", Unit::Bytes, StatisticKind::Counter),
    ("service_response_bytes_yb_master_MasterClient_GetTabletLocations", Unit::Bytes, StatisticKind::Counter),
    ("service_response_bytes_yb_master_MasterClient_GetTransactionStatusTablets", Unit::Bytes, StatisticKind::Counter), //
    ("service_response_bytes_yb_master_MasterClient_GetYsqlCatalogConfig", Unit::Bytes, StatisticKind::Counter),
    ("service_response_bytes_yb_master_MasterClient_RedisConfigGet", Unit::Bytes, StatisticKind::Counter),
    ("service_response_bytes_yb_master_MasterClient_RedisConfigSet", Unit::Bytes, StatisticKind::Counter),
    ("service_response_bytes_yb_master_MasterClient_ReservePgsqlOids", Unit::Bytes, StatisticKind::Counter), //
    ("service_response_bytes_yb_master_MasterCluster_AreLeadersOnPreferredOnly", Unit::Bytes, StatisticKind::Counter),
    ("service_response_bytes_yb_master_MasterCluster_ChangeLoadBalancerState", Unit::Bytes, StatisticKind::Counter),
    ("service_response_bytes_yb_master_MasterCluster_ChangeMasterClusterConfig", Unit::Bytes, StatisticKind::Counter),
    ("service_response_bytes_yb_master_MasterCluster_DumpState", Unit::Bytes, StatisticKind::Counter),
    ("service_response_bytes_yb_master_MasterCluster_GetAutoFlagsConfig", Unit::Bytes, StatisticKind::Counter), // 2.15.2.1
    ("service_response_bytes_yb_master_MasterCluster_GetLeaderBlacklistCompletion", Unit::Bytes, StatisticKind::Counter),
    ("service_response_bytes_yb_master_MasterCluster_GetLoadBalancerState", Unit::Bytes, StatisticKind::Counter),
    ("service_response_bytes_yb_master_MasterCluster_GetLoadMoveCompletion", Unit::Bytes, StatisticKind::Counter),
    ("service_response_bytes_yb_master_MasterCluster_GetMasterClusterConfig", Unit::Bytes, StatisticKind::Counter),
    ("service_response_bytes_yb_master_MasterCluster_GetMasterRegistration", Unit::Bytes, StatisticKind::Counter),
    ("service_response_bytes_yb_master_MasterCluster_IsLoadBalanced", Unit::Bytes, StatisticKind::Counter),
    ("service_response_bytes_yb_master_MasterCluster_IsLoadBalancerIdle", Unit::Bytes, StatisticKind::Counter),
    ("service_response_bytes_yb_master_MasterCluster_IsMasterLeaderServiceReady", Unit::Bytes, StatisticKind::Counter),
    ("service_response_bytes_yb_master_MasterCluster_ListLiveTabletServers", Unit::Bytes, StatisticKind::Counter),
    ("service_response_bytes_yb_master_MasterCluster_ListMasterRaftPeers", Unit::Bytes, StatisticKind::Counter),
    ("service_response_bytes_yb_master_MasterCluster_ListMasters", Unit::Bytes, StatisticKind::Counter),
    ("service_response_bytes_yb_master_MasterCluster_ListTabletServers", Unit::Bytes, StatisticKind::Counter),
    ("service_response_bytes_yb_master_MasterCluster_PromoteAutoFlags", Unit::Bytes, StatisticKind::Counter), // 2.17
    ("service_response_bytes_yb_master_MasterCluster_RemovedMasterUpdate", Unit::Bytes, StatisticKind::Counter),
    ("service_response_bytes_yb_master_MasterCluster_SetPreferredZones", Unit::Bytes, StatisticKind::Counter),
    ("service_response_bytes_yb_master_MasterDcl_AlterRole", Unit::Bytes, StatisticKind::Counter),
    ("service_response_bytes_yb_master_MasterDcl_CreateRole", Unit::Bytes, StatisticKind::Counter),
    ("service_response_bytes_yb_master_MasterDcl_DeleteRole", Unit::Bytes, StatisticKind::Counter),
    ("service_response_bytes_yb_master_MasterDcl_GetPermissions", Unit::Bytes, StatisticKind::Counter),
    ("service_response_bytes_yb_master_MasterDcl_GrantRevokePermission", Unit::Bytes, StatisticKind::Counter),
    ("service_response_bytes_yb_master_MasterDcl_GrantRevokeRole", Unit::Bytes, StatisticKind::Counter),
    ("service_response_bytes_yb_master_MasterDdl_AlterNamespace", Unit::Bytes, StatisticKind::Counter),
    ("service_response_bytes_yb_master_MasterDdl_AlterTable", Unit::Bytes, StatisticKind::Counter),
    ("service_response_bytes_yb_master_MasterDdl_BackfillIndex", Unit::Bytes, StatisticKind::Counter),
    ("service_response_bytes_yb_master_MasterDdl_CreateNamespace", Unit::Bytes, StatisticKind::Counter),
    ("service_response_bytes_yb_master_MasterDdl_CreateTable", Unit::Bytes, StatisticKind::Counter),
    ("service_response_bytes_yb_master_MasterDdl_CreateTablegroup", Unit::Bytes, StatisticKind::Counter),
    ("service_response_bytes_yb_master_MasterDdl_CreateUDType", Unit::Bytes, StatisticKind::Counter),
    ("service_response_bytes_yb_master_MasterDdl_DeleteNamespace", Unit::Bytes, StatisticKind::Counter),
    ("service_response_bytes_yb_master_MasterDdl_DeleteTable", Unit::Bytes, StatisticKind::Counter),
    ("service_response_bytes_yb_master_MasterDdl_DeleteTablegroup", Unit::Bytes, StatisticKind::Counter),
    ("service_response_bytes_yb_master_MasterDdl_DeleteUDType", Unit::Bytes, StatisticKind::Counter),
    ("service_response_bytes_yb_master_MasterDdl_GetBackfillJobs", Unit::Bytes, StatisticKind::Counter),
    ("service_response_bytes_yb_master_MasterDdl_GetColocatedTabletSchema", Unit::Bytes, StatisticKind::Counter),
    ("service_response_bytes_yb_master_MasterDdl_GetNamespaceInfo", Unit::Bytes, StatisticKind::Counter),
    ("service_response_bytes_yb_master_MasterDdl_GetTableDiskSize", Unit::Bytes, StatisticKind::Counter),
    ("service_response_bytes_yb_master_MasterDdl_GetTableSchema", Unit::Bytes, StatisticKind::Counter),
    ("service_response_bytes_yb_master_MasterDdl_GetTablegroupSchema", Unit::Bytes, StatisticKind::Counter),
    ("service_response_bytes_yb_master_MasterDdl_GetUDTypeInfo", Unit::Bytes, StatisticKind::Counter),
    ("service_response_bytes_yb_master_MasterDdl_IsAlterTableDone", Unit::Bytes, StatisticKind::Counter),
    ("service_response_bytes_yb_master_MasterDdl_IsCreateNamespaceDone", Unit::Bytes, StatisticKind::Counter),
    ("service_response_bytes_yb_master_MasterDdl_IsCreateTableDone", Unit::Bytes, StatisticKind::Counter),
    ("service_response_bytes_yb_master_MasterDdl_IsDeleteNamespaceDone", Unit::Bytes, StatisticKind::Counter),
    ("service_response_bytes_yb_master_MasterDdl_IsDeleteTableDone", Unit::Bytes, StatisticKind::Counter),
    ("service_response_bytes_yb_master_MasterDdl_IsTruncateTableDone", Unit::Bytes, StatisticKind::Counter),
    ("service_response_bytes_yb_master_MasterDdl_LaunchBackfillIndexForTable", Unit::Bytes, StatisticKind::Counter),
    ("service_response_bytes_yb_master_MasterDdl_ListNamespaces", Unit::Bytes, StatisticKind::Counter),
    ("service_response_bytes_yb_master_MasterDdl_ListTablegroups", Unit::Bytes, StatisticKind::Counter),
    ("service_response_bytes_yb_master_MasterDdl_ListTables", Unit::Bytes, StatisticKind::Counter), // 2.15.3.0
    ("service_response_bytes_yb_master_MasterDdl_ListUDTypes", Unit::Bytes, StatisticKind::Counter),
    ("service_response_bytes_yb_master_MasterDdl_TruncateTable", Unit::Bytes, StatisticKind::Counter),
    ("service_response_bytes_yb_master_MasterEncryption_AddUniverseKeys", Unit::Bytes, StatisticKind::Counter),
    ("service_response_bytes_yb_master_MasterEncryption_ChangeEncryptionInfo", Unit::Bytes, StatisticKind::Counter),
    ("service_response_bytes_yb_master_MasterEncryption_GetUniverseKeyRegistry", Unit::Bytes, StatisticKind::Counter),
    ("service_response_bytes_yb_master_MasterEncryption_HasUniverseKeyInMemory", Unit::Bytes, StatisticKind::Counter),
    ("service_response_bytes_yb_master_MasterEncryption_IsEncryptionEnabled", Unit::Bytes, StatisticKind::Counter),
    ("service_response_bytes_yb_master_MasterHeartbeat_TSHeartbeat", Unit::Bytes, StatisticKind::Counter),
    ("service_response_bytes_yb_master_MasterReplication_AlterUniverseReplication", Unit::Bytes, StatisticKind::Counter),
    ("service_response_bytes_yb_master_MasterReplication_ChangeXClusterRole", Unit::Bytes, StatisticKind::Counter), // 2.17
    ("service_response_bytes_yb_master_MasterReplication_CreateCDCStream", Unit::Bytes, StatisticKind::Counter),
    ("service_response_bytes_yb_master_MasterReplication_DeleteCDCStream", Unit::Bytes, StatisticKind::Counter),
    ("service_response_bytes_yb_master_MasterReplication_DeleteUniverseReplication", Unit::Bytes, StatisticKind::Counter),
    ("service_response_bytes_yb_master_MasterReplication_GetCDCDBStreamInfo", Unit::Bytes, StatisticKind::Counter),
    ("service_response_bytes_yb_master_MasterReplication_GetCDCStream", Unit::Bytes, StatisticKind::Counter),
    ("service_response_bytes_yb_master_MasterReplication_GetReplicationStatus", Unit::Bytes, StatisticKind::Counter), // 2.17
    ("service_response_bytes_yb_master_MasterReplication_GetTableSchemaFromSysCatalog", Unit::Bytes, StatisticKind::Counter), // 2.17.2
    ("service_response_bytes_yb_master_MasterReplication_GetUDTypeMetadata", Unit::Bytes, StatisticKind::Counter),
    ("service_response_bytes_yb_master_MasterReplication_GetUniverseReplication", Unit::Bytes, StatisticKind::Counter),
    ("service_response_bytes_yb_master_MasterReplication_GetXClusterEstimatedDataLoss", Unit::Bytes, StatisticKind::Counter), // 2.17
    ("service_response_bytes_yb_master_MasterReplication_GetXClusterSafeTime", Unit::Bytes, StatisticKind::Counter), // 2.17
    ("service_response_bytes_yb_master_MasterReplication_IsBootstrapRequired", Unit::Bytes, StatisticKind::Counter),
    ("service_response_bytes_yb_master_MasterReplication_IsSetupUniverseReplicationDone", Unit::Bytes, StatisticKind::Counter),
    ("service_response_bytes_yb_master_MasterReplication_ListCDCStreams", Unit::Bytes, StatisticKind::Counter),
    ("service_response_bytes_yb_master_MasterReplication_SetUniverseReplicationEnabled", Unit::Bytes, StatisticKind::Counter),
    ("service_response_bytes_yb_master_MasterReplication_SetupNSUniverseReplication", Unit::Bytes, StatisticKind::Counter),
    ("service_response_bytes_yb_master_MasterReplication_SetupUniverseReplication", Unit::Bytes, StatisticKind::Counter),
    ("service_response_bytes_yb_master_MasterReplication_UpdateCDCStream", Unit::Bytes, StatisticKind::Counter),
    ("service_response_bytes_yb_master_MasterReplication_UpdateConsumerOnProducerMetadata", Unit::Bytes, StatisticKind::Counter),
    ("service_response_bytes_yb_master_MasterReplication_UpdateConsumerOnProducerSplit", Unit::Bytes, StatisticKind::Counter),
    ("service_response_bytes_yb_master_MasterReplication_ValidateReplicationInfo", Unit::Bytes, StatisticKind::Counter),
    ("service_response_bytes_yb_master_MasterReplication_WaitForReplicationDrain", Unit::Bytes, StatisticKind::Counter),
    ("service_response_bytes_yb_master_MasterService_AddUniverseKeys", Unit::Bytes, StatisticKind::Counter),
    ("service_response_bytes_yb_master_MasterService_AlterNamespace", Unit::Bytes, StatisticKind::Counter),
    ("service_response_bytes_yb_master_MasterService_AlterRole", Unit::Bytes, StatisticKind::Counter),
    ("service_response_bytes_yb_master_MasterService_AlterTable", Unit::Bytes, StatisticKind::Counter),
    ("service_response_bytes_yb_master_MasterService_AlterUniverseReplication", Unit::Bytes, StatisticKind::Counter),
    ("service_response_bytes_yb_master_MasterService_AreLoadersOnPreferredOnly", Unit::Bytes, StatisticKind::Counter),
    ("service_response_bytes_yb_master_MasterService_BackfillIndex", Unit::Bytes, StatisticKind::Counter),
    ("service_response_bytes_yb_master_MasterService_ChangeEncryptionInfo", Unit::Bytes, StatisticKind::Counter),
    ("service_response_bytes_yb_master_MasterService_ChangeLoadBalancerState", Unit::Bytes, StatisticKind::Counter),
    ("service_response_bytes_yb_master_MasterService_ChangeMasterClusterConfig", Unit::Bytes, StatisticKind::Counter),
    ("service_response_bytes_yb_master_MasterService_CreateCDCStream", Unit::Bytes, StatisticKind::Counter),
    ("service_response_bytes_yb_master_MasterService_CreateNamespace", Unit::Bytes, StatisticKind::Counter),
    ("service_response_bytes_yb_master_MasterService_CreateRole", Unit::Bytes, StatisticKind::Counter),
    ("service_response_bytes_yb_master_MasterService_CreateTable", Unit::Bytes, StatisticKind::Counter),
    ("service_response_bytes_yb_master_MasterService_CreateTablegroup", Unit::Bytes, StatisticKind::Counter),
    ("service_response_bytes_yb_master_MasterService_CreateTransactionStatusTable", Unit::Bytes, StatisticKind::Counter),
    ("service_response_bytes_yb_master_MasterService_CreateUDType", Unit::Bytes, StatisticKind::Counter),
    ("service_response_bytes_yb_master_MasterService_DdlLog", Unit::Bytes, StatisticKind::Counter),
    ("service_response_bytes_yb_master_MasterService_DeleteCDCStream", Unit::Bytes, StatisticKind::Counter),
    ("service_response_bytes_yb_master_MasterService_DeleteNamespace", Unit::Bytes, StatisticKind::Counter),
    ("service_response_bytes_yb_master_MasterService_DeleteNotServingTablet", Unit::Bytes, StatisticKind::Counter),
    ("service_response_bytes_yb_master_MasterService_DeleteRole", Unit::Bytes, StatisticKind::Counter),
    ("service_response_bytes_yb_master_MasterService_DeleteTable", Unit::Bytes, StatisticKind::Counter),
    ("service_response_bytes_yb_master_MasterService_DeleteTablegroup", Unit::Bytes, StatisticKind::Counter),
    ("service_response_bytes_yb_master_MasterService_DeleteUDType", Unit::Bytes, StatisticKind::Counter),
    ("service_response_bytes_yb_master_MasterService_DeleteUniverseReplication", Unit::Bytes, StatisticKind::Counter),
    ("service_response_bytes_yb_master_MasterService_DumpState", Unit::Bytes, StatisticKind::Counter),
    ("service_response_bytes_yb_master_MasterService_FlushTables", Unit::Bytes, StatisticKind::Counter),
    ("service_response_bytes_yb_master_MasterService_GetBackfillJobs", Unit::Bytes, StatisticKind::Counter),
    ("service_response_bytes_yb_master_MasterService_GetCDCStream", Unit::Bytes, StatisticKind::Counter),
    ("service_response_bytes_yb_master_MasterService_GetColocatedTabletSchema", Unit::Bytes, StatisticKind::Counter),
    ("service_response_bytes_yb_master_MasterService_GetLeaderBlacklistCompletion", Unit::Bytes, StatisticKind::Counter),
    ("service_response_bytes_yb_master_MasterService_GetLoadBalancerState", Unit::Bytes, StatisticKind::Counter),
    ("service_response_bytes_yb_master_MasterService_GetLoadMoveCompletion", Unit::Bytes, StatisticKind::Counter),
    ("service_response_bytes_yb_master_MasterService_GetMasterClusterConfig", Unit::Bytes, StatisticKind::Counter),
    ("service_response_bytes_yb_master_MasterService_GetMasterRegistration", Unit::Bytes, StatisticKind::Counter),
    ("service_response_bytes_yb_master_MasterService_GetNamespaceInfo", Unit::Bytes, StatisticKind::Counter),
    ("service_response_bytes_yb_master_MasterService_GetPermissions", Unit::Bytes, StatisticKind::Counter),
    ("service_response_bytes_yb_master_MasterService_GetTableLocations", Unit::Bytes, StatisticKind::Counter),
    ("service_response_bytes_yb_master_MasterService_GetTableSchema", Unit::Bytes, StatisticKind::Counter),
    ("service_response_bytes_yb_master_MasterService_GetTabletLocations", Unit::Bytes, StatisticKind::Counter),
    ("service_response_bytes_yb_master_MasterService_GetUDTypeInfo", Unit::Bytes, StatisticKind::Counter),
    ("service_response_bytes_yb_master_MasterService_GetUniverseKeyRegistry", Unit::Bytes, StatisticKind::Counter),
    ("service_response_bytes_yb_master_MasterService_GetUniverseReplication", Unit::Bytes, StatisticKind::Counter),
    ("service_response_bytes_yb_master_MasterService_GetYsqlCatalogConfig", Unit::Bytes, StatisticKind::Counter),
    ("service_response_bytes_yb_master_MasterService_GrantRevokePermission", Unit::Bytes, StatisticKind::Counter),
    ("service_response_bytes_yb_master_MasterService_GrantRevokeRole", Unit::Bytes, StatisticKind::Counter),
    ("service_response_bytes_yb_master_MasterService_HasUniverseKeyInMemory", Unit::Bytes, StatisticKind::Counter),
    ("service_response_bytes_yb_master_MasterService_IsAlterTableDone", Unit::Bytes, StatisticKind::Counter),
    ("service_response_bytes_yb_master_MasterService_IsCreateNamespaceDone", Unit::Bytes, StatisticKind::Counter),
    ("service_response_bytes_yb_master_MasterService_IsCreateTableDone", Unit::Bytes, StatisticKind::Counter),
    ("service_response_bytes_yb_master_MasterService_IsDeleteNamespaceDone", Unit::Bytes, StatisticKind::Counter),
    ("service_response_bytes_yb_master_MasterService_IsDeleteTableDone", Unit::Bytes, StatisticKind::Counter),
    ("service_response_bytes_yb_master_MasterService_IsEncryptionEnabled", Unit::Bytes, StatisticKind::Counter),
    ("service_response_bytes_yb_master_MasterService_IsFlushTablesDone", Unit::Bytes, StatisticKind::Counter),
    ("service_response_bytes_yb_master_MasterService_IsInitDbDone", Unit::Bytes, StatisticKind::Counter),
    ("service_response_bytes_yb_master_MasterService_IsLoadBalanced", Unit::Bytes, StatisticKind::Counter),
    ("service_response_bytes_yb_master_MasterService_IsLoadBalancerIdle", Unit::Bytes, StatisticKind::Counter),
    ("service_response_bytes_yb_master_MasterService_IsMasterLeaderServiceReady", Unit::Bytes, StatisticKind::Counter),
    ("service_response_bytes_yb_master_MasterService_IsSetupUniverseReplicationDone", Unit::Bytes, StatisticKind::Counter),
    ("service_response_bytes_yb_master_MasterService_LaunchBackfillIndexForTable", Unit::Bytes, StatisticKind::Counter),
    ("service_response_bytes_yb_master_MasterService_ListCDCStreams", Unit::Bytes, StatisticKind::Counter),
    ("service_response_bytes_yb_master_MasterService_ListLiveTabletServers", Unit::Bytes, StatisticKind::Counter),
    ("service_response_bytes_yb_master_MasterService_ListMasterRaftPeers", Unit::Bytes, StatisticKind::Counter),
    ("service_response_bytes_yb_master_MasterService_ListMasters", Unit::Bytes, StatisticKind::Counter),
    ("service_response_bytes_yb_master_MasterService_ListNamespaces", Unit::Bytes, StatisticKind::Counter),
    ("service_response_bytes_yb_master_MasterService_ListTablegroups", Unit::Bytes, StatisticKind::Counter),
    ("service_response_bytes_yb_master_MasterService_ListTables", Unit::Bytes, StatisticKind::Counter),
    ("service_response_bytes_yb_master_MasterService_ListTabletServers", Unit::Bytes, StatisticKind::Counter),
    ("service_response_bytes_yb_master_MasterService_ListUDType", Unit::Bytes, StatisticKind::Counter),
    ("service_response_bytes_yb_master_MasterService_RedisConfigGet", Unit::Bytes, StatisticKind::Counter),
    ("service_response_bytes_yb_master_MasterService_RedisConfigSet", Unit::Bytes, StatisticKind::Counter),
    ("service_response_bytes_yb_master_MasterService_RemovedMasterUpdate", Unit::Bytes, StatisticKind::Counter),
    ("service_response_bytes_yb_master_MasterService_ReservePgsqlOids", Unit::Bytes, StatisticKind::Counter),
    ("service_response_bytes_yb_master_MasterService_SetPreferredZones", Unit::Bytes, StatisticKind::Counter),
    ("service_response_bytes_yb_master_MasterService_SetUniverseReplication", Unit::Bytes, StatisticKind::Counter),
    ("service_response_bytes_yb_master_MasterService_SetupUniverseReplication", Unit::Bytes, StatisticKind::Counter),
    ("service_response_bytes_yb_master_MasterService_SplitTablet", Unit::Bytes, StatisticKind::Counter),
    ("service_response_bytes_yb_master_MasterService_TSHeartbeat", Unit::Bytes, StatisticKind::Counter),
    ("service_response_bytes_yb_master_MasterService_TruncateTable", Unit::Bytes, StatisticKind::Counter),
    ("service_response_bytes_yb_master_MasterService_UpdateCDCStream", Unit::Bytes, StatisticKind::Counter),
    ("service_response_bytes_yb_server_GenericService_FlushCoverage", Unit::Bytes, StatisticKind::Counter),
    ("service_response_bytes_yb_server_GenericService_GetAutoFlagsConfigVersion", Unit::Bytes, StatisticKind::Counter),
    ("service_response_bytes_yb_server_GenericService_GetFlag", Unit::Bytes, StatisticKind::Counter),
    ("service_response_bytes_yb_server_GenericService_GetStatus", Unit::Bytes, StatisticKind::Counter),
    ("service_response_bytes_yb_server_GenericService_Ping", Unit::Bytes, StatisticKind::Counter),
    ("service_response_bytes_yb_server_GenericService_RefreshFlags", Unit::Bytes, StatisticKind::Counter),
    ("service_response_bytes_yb_server_GenericService_ReloadCertificates", Unit::Bytes, StatisticKind::Counter),
    ("service_response_bytes_yb_server_GenericService_ServerClock", Unit::Bytes, StatisticKind::Counter),
    ("service_response_bytes_yb_server_GenericService_SetFlag", Unit::Bytes, StatisticKind::Counter),
    ("service_response_bytes_yb_tserver_PgClientService_AlterDatabase", Unit::Bytes, StatisticKind::Counter),
    ("service_response_bytes_yb_tserver_PgClientService_AlterTable", Unit::Bytes, StatisticKind::Counter),
    ("service_response_bytes_yb_tserver_PgClientService_BackfillIndex", Unit::Bytes, StatisticKind::Counter),
    ("service_response_bytes_yb_tserver_PgClientService_CheckIfPitrActive", Unit::Bytes, StatisticKind::Counter),
    ("service_response_bytes_yb_tserver_PgClientService_CreateDatabase", Unit::Bytes, StatisticKind::Counter),
    ("service_response_bytes_yb_tserver_PgClientService_CreateSequencesDataTable", Unit::Bytes, StatisticKind::Counter),
    ("service_response_bytes_yb_tserver_PgClientService_CreateTable", Unit::Bytes, StatisticKind::Counter),
    ("service_response_bytes_yb_tserver_PgClientService_CreateTablegroup", Unit::Bytes, StatisticKind::Counter),
    ("service_response_bytes_yb_tserver_PgClientService_DeleteDBSequences", Unit::Bytes, StatisticKind::Counter),
    ("service_response_bytes_yb_tserver_PgClientService_DeleteSequenceTuple", Unit::Bytes, StatisticKind::Counter),
    ("service_response_bytes_yb_tserver_PgClientService_DropDatabase", Unit::Bytes, StatisticKind::Counter),
    ("service_response_bytes_yb_tserver_PgClientService_DropTable", Unit::Bytes, StatisticKind::Counter),
    ("service_response_bytes_yb_tserver_PgClientService_DropTablegroup", Unit::Bytes, StatisticKind::Counter),
    ("service_response_bytes_yb_tserver_PgClientService_FinishTransaction", Unit::Bytes, StatisticKind::Counter),
    ("service_response_bytes_yb_tserver_PgClientService_GetCatalogMasterVersion", Unit::Bytes, StatisticKind::Counter),
    ("service_response_bytes_yb_tserver_PgClientService_GetDatabaseInfo", Unit::Bytes, StatisticKind::Counter),
    ("service_response_bytes_yb_tserver_PgClientService_GetTableDiskSize", Unit::Bytes, StatisticKind::Counter),
    ("service_response_bytes_yb_tserver_PgClientService_GetTserverCatalogVersionInfo", Unit::Bytes, StatisticKind::Counter), // 2.17
    ("service_response_bytes_yb_tserver_PgClientService_Heartbeat", Unit::Bytes, StatisticKind::Counter),
    ("service_response_bytes_yb_tserver_PgClientService_InsertSequenceTuple", Unit::Bytes, StatisticKind::Counter),
    ("service_response_bytes_yb_tserver_PgClientService_IsInitDbDone", Unit::Bytes, StatisticKind::Counter),
    ("service_response_bytes_yb_tserver_PgClientService_ListLiveTabletServers", Unit::Bytes, StatisticKind::Counter),
    ("service_response_bytes_yb_tserver_PgClientService_OpenTable", Unit::Bytes, StatisticKind::Counter),
    ("service_response_bytes_yb_tserver_PgClientService_Perform", Unit::Bytes, StatisticKind::Counter),
    ("service_response_bytes_yb_tserver_PgClientService_ReadSequenceTuple", Unit::Bytes, StatisticKind::Counter),
    ("service_response_bytes_yb_tserver_PgClientService_ReserveOids", Unit::Bytes, StatisticKind::Counter),
    ("service_response_bytes_yb_tserver_PgClientService_RollbackToSubTransaction", Unit::Bytes, StatisticKind::Counter),
    ("service_response_bytes_yb_tserver_PgClientService_SetActiveSubTransaction", Unit::Bytes, StatisticKind::Counter),
    ("service_response_bytes_yb_tserver_PgClientService_TabletServerCount", Unit::Bytes, StatisticKind::Counter),
    ("service_response_bytes_yb_tserver_PgClientService_TruncateTable", Unit::Bytes, StatisticKind::Counter),
    ("service_response_bytes_yb_tserver_PgClientService_UpdateSequenceTuple", Unit::Bytes, StatisticKind::Counter),
    ("service_response_bytes_yb_tserver_PgClientService_ValidatePlacement", Unit::Bytes, StatisticKind::Counter),
    ("service_response_bytes_yb_tserver_RemoteBootstrapService_BeginRemoteBootstrapSession", Unit::Bytes, StatisticKind::Counter),
    ("service_response_bytes_yb_tserver_RemoteBootstrapService_ChangePeerRole", Unit::Bytes, StatisticKind::Counter),
    ("service_response_bytes_yb_tserver_RemoteBootstrapService_CheckRemoteBootstrapSessionActive", Unit::Bytes, StatisticKind::Counter),
    ("service_response_bytes_yb_tserver_RemoteBootstrapService_CheckSessionActive", Unit::Bytes, StatisticKind::Counter),
    ("service_response_bytes_yb_tserver_RemoteBootstrapService_EndRemoteBootstrapSession", Unit::Bytes, StatisticKind::Counter),
    ("service_response_bytes_yb_tserver_RemoteBootstrapService_FetchData", Unit::Bytes, StatisticKind::Counter),
    ("service_response_bytes_yb_tserver_RemoteBootstrapService_KeepLogAnchorAlive", Unit::Bytes, StatisticKind::Counter),
    ("service_response_bytes_yb_tserver_RemoteBootstrapService_RegisterLogAnchor", Unit::Bytes, StatisticKind::Counter),
    ("service_response_bytes_yb_tserver_RemoteBootstrapService_RemoveRemoteBootstrapSession", Unit::Bytes, StatisticKind::Counter),
    ("service_response_bytes_yb_tserver_RemoteBootstrapService_RemoveSession", Unit::Bytes, StatisticKind::Counter),
    ("service_response_bytes_yb_tserver_RemoteBootstrapService_UnregisterLogAnchor", Unit::Bytes, StatisticKind::Counter),
    ("service_response_bytes_yb_tserver_RemoteBootstrapService_UpdateLogAnchor", Unit::Bytes, StatisticKind::Counter),
    ("service_response_bytes_yb_tserver_TabletServerAdminService_AddTableToTablet", Unit::Bytes, StatisticKind::Counter),
    ("service_response_bytes_yb_tserver_TabletServerAdminService_AlterSchema", Unit::Bytes, StatisticKind::Counter),
    ("service_response_bytes_yb_tserver_TabletServerAdminService_BackfillDone", Unit::Bytes, StatisticKind::Counter),
    ("service_response_bytes_yb_tserver_TabletServerAdminService_BackfillIndex", Unit::Bytes, StatisticKind::Counter),
    ("service_response_bytes_yb_tserver_TabletServerAdminService_CopartitionTable", Unit::Bytes, StatisticKind::Counter),
    ("service_response_bytes_yb_tserver_TabletServerAdminService_CountIntents", Unit::Bytes, StatisticKind::Counter),
    ("service_response_bytes_yb_tserver_TabletServerAdminService_CreateTablet", Unit::Bytes, StatisticKind::Counter),
    ("service_response_bytes_yb_tserver_TabletServerAdminService_DeleteTablet", Unit::Bytes, StatisticKind::Counter),
    ("service_response_bytes_yb_tserver_TabletServerAdminService_FlushTablets", Unit::Bytes, StatisticKind::Counter),
    ("service_response_bytes_yb_tserver_TabletServerAdminService_GetSafeTime", Unit::Bytes, StatisticKind::Counter),
    ("service_response_bytes_yb_tserver_TabletServerAdminService_PrepareDeleteTransactionTablet", Unit::Bytes, StatisticKind::Counter), // 2.17
    ("service_response_bytes_yb_tserver_TabletServerAdminService_PrepareDeleteTransactionTablet", Unit::Bytes, StatisticKind::Counter), // 2.17
    ("service_response_bytes_yb_tserver_TabletServerAdminService_RemoveTableFromTablet", Unit::Bytes, StatisticKind::Counter),
    ("service_response_bytes_yb_tserver_TabletServerAdminService_SplitTablet", Unit::Bytes, StatisticKind::Counter),
    ("service_response_bytes_yb_tserver_TabletServerAdminService_TabletSnapshotOp", Unit::Bytes, StatisticKind::Counter),
    ("service_response_bytes_yb_tserver_TabletServerAdminService_TestRetry", Unit::Bytes, StatisticKind::Counter),
    ("service_response_bytes_yb_tserver_TabletServerAdminService_UpdateConsensus", Unit::Bytes, StatisticKind::Counter),
    ("service_response_bytes_yb_tserver_TabletServerAdminService_UpdateTransactionTablesVersion", Unit::Bytes, StatisticKind::Counter), // 2.17
    ("service_response_bytes_yb_tserver_TabletServerAdminService_UpgradeYsql", Unit::Bytes, StatisticKind::Counter),
    ("service_response_bytes_yb_tserver_TabletServerBackupService_TabletSnapshotOp", Unit::Bytes, StatisticKind::Counter),
    ("service_response_bytes_yb_tserver_TabletServerService_AbortTransaction", Unit::Bytes, StatisticKind::Counter),
    ("service_response_bytes_yb_tserver_TabletServerService_Checksum", Unit::Bytes, StatisticKind::Counter),
    ("service_response_bytes_yb_tserver_TabletServerService_GetLogLocation", Unit::Bytes, StatisticKind::Counter),
    ("service_response_bytes_yb_tserver_TabletServerService_GetMasterAddresses", Unit::Bytes, StatisticKind::Counter),
    ("service_response_bytes_yb_tserver_TabletServerService_GetSharedData", Unit::Bytes, StatisticKind::Counter),
    ("service_response_bytes_yb_tserver_TabletServerService_GetSplitKey", Unit::Bytes, StatisticKind::Counter),
    ("service_response_bytes_yb_tserver_TabletServerService_GetTabletStatus", Unit::Bytes, StatisticKind::Counter),
    ("service_response_bytes_yb_tserver_TabletServerService_GetTransactionStatus", Unit::Bytes, StatisticKind::Counter),
    ("service_response_bytes_yb_tserver_TabletServerService_GetTransactionStatusAtParticipant", Unit::Bytes, StatisticKind::Counter),
    ("service_response_bytes_yb_tserver_TabletServerService_GetTserverCatalogVersionInfo", Unit::Bytes, StatisticKind::Counter),
    ("service_response_bytes_yb_tserver_TabletServerService_ImportData", Unit::Bytes, StatisticKind::Counter),
    ("service_response_bytes_yb_tserver_TabletServerService_IsTabletServerReady", Unit::Bytes, StatisticKind::Counter),
    ("service_response_bytes_yb_tserver_TabletServerService_ListMasterServers", Unit::Bytes, StatisticKind::Counter), // 2.17.2
    ("service_response_bytes_yb_tserver_TabletServerService_ListTablets", Unit::Bytes, StatisticKind::Counter),
    ("service_response_bytes_yb_tserver_TabletServerService_ListTabletsForTabletServer", Unit::Bytes, StatisticKind::Counter),
    ("service_response_bytes_yb_tserver_TabletServerService_NoOp", Unit::Bytes, StatisticKind::Counter),
    ("service_response_bytes_yb_tserver_TabletServerService_ProbeTransactionDeadlock", Unit::Bytes, StatisticKind::Counter),
    ("service_response_bytes_yb_tserver_TabletServerService_Publish", Unit::Bytes, StatisticKind::Counter),
    ("service_response_bytes_yb_tserver_TabletServerService_Read", Unit::Bytes, StatisticKind::Counter),
    ("service_response_bytes_yb_tserver_TabletServerService_TakeTransaction", Unit::Bytes, StatisticKind::Counter),
    ("service_response_bytes_yb_tserver_TabletServerService_Truncate", Unit::Bytes, StatisticKind::Counter),
    ("service_response_bytes_yb_tserver_TabletServerService_UpdateTransaction", Unit::Bytes, StatisticKind::Counter),
    ("service_response_bytes_yb_tserver_TabletServerService_UpdateTransactionStatusLocation", Unit::Bytes, StatisticKind::Counter),
    ("service_response_bytes_yb_tserver_TabletServerService_UpdateTransactionWaitingForStatus", Unit::Bytes, StatisticKind::Counter),
    ("service_response_bytes_yb_tserver_TabletServerService_VerifyTableRowRange", Unit::Bytes, StatisticKind::Counter),
    ("service_response_bytes_yb_tserver_TabletServerService_Write", Unit::Bytes, StatisticKind::Counter),
    ("snapshot_operations_inflight", Unit::Operations, StatisticKind::Gauge),
    ("spinlock_contention_time", Unit::Microseconds, StatisticKind::Counter),
    ("split_operations_inflight", Unit::Operations, StatisticKind::Gauge),
    ("sys_catalog_peer_write_count", Unit::Entries, StatisticKind::Counter),
    ("tablet_data_corruptions", Unit::Corruptions, StatisticKind::Counter),
    ("tcmalloc_current_total_thread_cache_bytes", Unit::Bytes, StatisticKind::Gauge),
    ("tcmalloc_max_total_thread_cache_bytes", Unit::Bytes, StatisticKind::Gauge),
    ("tcmalloc_pageheap_free_bytes", Unit::Bytes, StatisticKind::Gauge),
    ("tcmalloc_pageheap_unmapped_bytes", Unit::Bytes, StatisticKind::Gauge),
    ("tcp_bytes_received", Unit::Bytes, StatisticKind::Counter),
    ("tcp_bytes_sent", Unit::Bytes, StatisticKind::Counter),
    ("threads_running", Unit::Threads, StatisticKind::Gauge),
    ("threads_running_CQLServer_reactor", Unit::Threads, StatisticKind::Gauge),
    ("threads_running_Master_reactor", Unit::Threads, StatisticKind::Gauge),
    ("threads_running_TabletServer_reactor", Unit::Threads, StatisticKind::Gauge),
    ("threads_running_acceptor", Unit::Threads, StatisticKind::Gauge),
    ("threads_running_catalog_manager", Unit::Threads, StatisticKind::Gauge),
    ("threads_running_heartbeater", Unit::Threads, StatisticKind::Gauge),
    ("threads_running_iotp_CQLServer", Unit::Threads, StatisticKind::Gauge),
    ("threads_running_iotp_Master", Unit::Threads, StatisticKind::Gauge),
    ("threads_running_iotp_TabletServer", Unit::Threads, StatisticKind::Gauge),
    ("threads_running_iotp_call_home", Unit::Threads, StatisticKind::Gauge),
    ("threads_running_maintenance", Unit::Threads, StatisticKind::Gauge),
    ("threads_running_pg_supervisor", Unit::Threads, StatisticKind::Gauge),
    ("threads_running_remote_bootstrap", Unit::Threads, StatisticKind::Gauge),
    ("threads_running_remote_maintenance", Unit::Threads, StatisticKind::Gauge),
    ("threads_running_rocksdb:high", Unit::Threads, StatisticKind::Gauge),
    ("threads_running_rpc_thread_pool", Unit::Threads, StatisticKind::Gauge),
    ("threads_running_tablet_manager", Unit::Threads, StatisticKind::Gauge),
    ("threads_running_tablet_split_manager", Unit::Threads, StatisticKind::Gauge),
    ("threads_running_thread_pool", Unit::Threads, StatisticKind::Gauge),
    ("threads_started", Unit::Threads, StatisticKind::Counter),
    ("threads_started_CQLServer_reactor", Unit::Threads, StatisticKind::Counter),
    ("threads_started_Master_reactor", Unit::Threads, StatisticKind::Counter),
    ("threads_started_TabletServer_reactor", Unit::Threads, StatisticKind::Gauge),
    ("threads_started_acceptor", Unit::Threads, StatisticKind::Counter),
    ("threads_started_auto_flags_client_reactor", Unit::Threads, StatisticKind::Counter), // 2.15.2.1
    ("threads_started_catalog_manager", Unit::Threads, StatisticKind::Counter),
    ("threads_started_heartbeater", Unit::Threads, StatisticKind::Counter),
    ("threads_started_iotp_CQLServer", Unit::Threads, StatisticKind::Counter),
    ("threads_started_iotp_Master", Unit::Threads, StatisticKind::Counter),
    ("threads_started_iotp_TabletServer", Unit::Threads, StatisticKind::Counter),
    ("threads_started_iotp_auto_flags_client", Unit::Threads, StatisticKind::Counter), // 2.15.2.1
    ("threads_started_iotp_call_home", Unit::Threads, StatisticKind::Counter),
    ("threads_started_maintenance", Unit::Threads, StatisticKind::Counter),
    ("threads_started_pg_supervisor", Unit::Threads, StatisticKind::Counter),
    ("threads_started_remote_bootstrap", Unit::Threads, StatisticKind::Counter),
    ("threads_started_remote_maintenance", Unit::Threads, StatisticKind::Counter),
    ("threads_started_rocksdb:high", Unit::Threads, StatisticKind::Gauge),
    ("threads_started_rpc_thread_pool", Unit::Threads, StatisticKind::Counter),
    ("threads_started_tablet_manager", Unit::Threads, StatisticKind::Counter),
    ("threads_started_tablet_split_manager", Unit::Threads, StatisticKind::Counter),
    ("threads_started_thread_pool", Unit::Threads, StatisticKind::Counter),
    ("transaction_conflicts", Unit::Transactions, StatisticKind::Counter),
    ("transaction_load_attempts", Unit::Transactions, StatisticKind::Counter),
    ("transaction_not_found", Unit::Transactions, StatisticKind::Counter),
    ("transaction_pool_cache_hits", Unit::Hits, StatisticKind::Counter),
    ("transaction_pool_cache_queries", Unit::Queries, StatisticKind::Counter),
    ("transaction_pool_prepared", Unit::Transactions, StatisticKind::Gauge),
    ("transaction_pool_preparing", Unit::Transactions, StatisticKind::Gauge),
    ("transactions_running", Unit::Transactions, StatisticKind::Gauge),
    ("truncate_operations_inflight", Unit::Operations, StatisticKind::Gauge),
    ("ts_post_split_compaction_added", Unit::Requests, StatisticKind::Gauge), // 2.17
    ("ts_split_compaction_added", Unit::Requests, StatisticKind::Gauge),
    ("ts_split_op_added", Unit::Operations, StatisticKind::Gauge),
    ("ts_split_op_apply", Unit::Operations, StatisticKind::Gauge),
    ("update_transaction_operations_inflight", Unit::Operations, StatisticKind::Gauge),
    ("voluntary_context_switches", Unit::ContextSwitches, StatisticKind::Counter),
    ("write_operations_inflight", Unit::Operations, StatisticKind::Gauge),
    ("yb_cqlserver_CQLServerService_ParsingErrors", Unit::Requests, StatisticKind::Counter),
];

impl ValueStatistics {
    /// The registry of all known statistics, built from the reserved entry
    /// and the rows of the known-statistics table, entered in order.
    pub fn create() -> (r: ValueStatistics)
        ensures
            r.wf(),
            r@ == registry_of(KNOWN_STATISTICS@),
    {
        let mut table = ValueStatistics::new();
        let rows = &KNOWN_STATISTICS;
        let mut i: usize = 0;
        while i < rows.len()
            invariant
                table.wf(),
                table@ == registry_of(KNOWN_STATISTICS@.take(i as int)),
                i <= KNOWN_STATISTICS@.len(),
                rows@ == KNOWN_STATISTICS@,
            decreases KNOWN_STATISTICS@.len() - i,
        {
            let row = rows[i];
            table.insert(row.0, row.1.name(), row.2.name());
            proof {
                let done = KNOWN_STATISTICS@.take(i + 1);
                assert(done.drop_last() =~= KNOWN_STATISTICS@.take(i as int));
                assert(done.last() == row);
            }
            i = i + 1;
        }
        proof {
            assert(KNOWN_STATISTICS@.take(i as int) =~= KNOWN_STATISTICS@);
        }
        table
    }

}

} // verus!
