//! The fixed parts of the pages, between the places where values go.

use vstd::prelude::*;

verus! {

/// The badge of a provider that needs a key.
pub const KEY_BADGE: &'static str = r###"<span class="card-badge"><svg xmlns="http://www.w3.org/2000/svg" viewBox="0 0 24 24" fill="none" stroke="currentColor" stroke-width="2" stroke-linecap="round" stroke-linejoin="round"><circle cx="7.5" cy="15.5" r="5.5"/><path d="m21 2-9.6 9.6"/><path d="m15.5 7.5 3 3L22 7l-3-3"/></svg>API key</span>"###;

/// Part 0 of the box with a check's error.
pub const ERROR_DIV_0: &'static str = r###"<div class="card-error" title=""###;

/// Part 1 of the box with a check's error.
pub const ERROR_DIV_1: &'static str = r###"">"###;

/// Part 2 of the box with a check's error.
pub const ERROR_DIV_2: &'static str = r###"</div>"###;

/// Part 0 of a provider's card.
pub const CARD_0: &'static str = r###"<a href="/provider/"###;

/// Part 1 of a provider's card.
pub const CARD_1: &'static str = r###"" class="card"><div class="card-top"><span class="card-name">"###;

/// Part 2 of a provider's card.
pub const CARD_2: &'static str = r###"</span><span class="card-status "###;

/// Part 3 of a provider's card.
pub const CARD_3: &'static str = r###""></span></div><div class="card-details"><span>"###;

/// Part 4 of a provider's card.
pub const CARD_4: &'static str = r###" models · "###;

/// Part 5 of a provider's card.
pub const CARD_5: &'static str = r###"</span><span>Checked: "###;

/// Part 6 of a provider's card.
pub const CARD_6: &'static str = r###"</span></div>"###;

/// Part 7 of a provider's card.
pub const CARD_7: &'static str = r###""###;

/// Part 8 of a provider's card.
pub const CARD_8: &'static str = r###"</a>"###;

/// The mark of a check that passed.
pub const PASS_ICON: &'static str = r###"<span class="status-icon"><svg xmlns="http://www.w3.org/2000/svg" viewBox="0 0 24 24" fill="none" stroke="hsl(142, 76%, 36%)" stroke-width="2.5" stroke-linecap="round" stroke-linejoin="round"><path d="M22 11.08V12a10 10 0 1 1-5.93-9.14"/><path d="m9 11 3 3L22 4"/></svg>Pass</span>"###;

/// The mark of a check that failed.
pub const FAIL_ICON: &'static str = r###"<span class="status-icon"><svg xmlns="http://www.w3.org/2000/svg" viewBox="0 0 24 24" fill="none" stroke="hsl(0, 62.8%, 50%)" stroke-width="2.5" stroke-linecap="round" stroke-linejoin="round"><circle cx="12" cy="12" r="10"/><path d="m15 9-6 6"/><path d="m9 9 6 6"/></svg>Fail</span>"###;

/// Part 0 of a row of the table of checks.
pub const CHECK_ROW_0: &'static str = r###"<tr class=""###;

/// Part 1 of a row of the table of checks.
pub const CHECK_ROW_1: &'static str = r###""><td>"###;

/// Part 2 of a row of the table of checks.
pub const CHECK_ROW_2: &'static str = r###"</td><td>"###;

/// Part 3 of a row of the table of checks.
pub const CHECK_ROW_3: &'static str = r###"</td><td>"###;

/// Part 4 of a row of the table of checks.
pub const CHECK_ROW_4: &'static str = r###"</td><td>"###;

/// Part 5 of a row of the table of checks.
pub const CHECK_ROW_5: &'static str = r###"</td><td>"###;

/// Part 6 of a row of the table of checks.
pub const CHECK_ROW_6: &'static str = r###"</td><td class="error-cell" title=""###;

/// Part 7 of a row of the table of checks.
pub const CHECK_ROW_7: &'static str = r###"">"###;

/// Part 8 of a row of the table of checks.
pub const CHECK_ROW_8: &'static str = r###"</td></tr>"###;

/// Part 0 of the dashboard page.
pub const DASHBOARD_0: &'static str = r###"<!DOCTYPE html>
<html lang="en">
<head><meta charset="UTF-8"><meta name="viewport" content="width=device-width,initial-scale=1.0">
<title>Open Provider — Model Catalog Monitor</title>
<link rel="preconnect" href="https://fonts.googleapis.com">
<link href="https://fonts.googleapis.com/css2?family=Inter:wght@400;500;600;700&display=swap" rel="stylesheet">
<style>
:root{--background:240 10% 3.9%;--foreground:0 0% 98%;--card:240 10% 5.9%;--primary:217 91% 60%;--secondary:240 3.7% 15.9%;--secondary-foreground:0 0% 98%;--muted:240 3.7% 15.9%;--muted-foreground:240 5% 64.9%;--accent:240 3.7% 15.9%;--accent-foreground:0 0% 98%;--destructive:0 62.8% 30.6%;--success:142 76% 36%;--border:240 3.7% 15.9%;--ring:217 91% 60%;--radius:0.5rem}
*{margin:0;padding:0;box-sizing:border-box}
body{font-family:'Inter',-apple-system,BlinkMacSystemFont,sans-serif;background:hsl(var(--background));color:hsl(var(--foreground));padding:32px 24px;line-height:1.5;-webkit-font-smoothing:antialiased}
h1{font-size:28px;font-weight:700;letter-spacing:-0.02em;margin-bottom:4px}
.subtitle{color:hsl(var(--muted-foreground));font-size:14px;margin-bottom:32px;display:flex;align-items:center;gap:12px}
.btn-icon{display:inline-flex;align-items:center;gap:6px;font-size:13px;color:hsl(var(--muted-foreground));cursor:pointer;border:none;background:none;font-family:inherit;padding:4px 0;transition:color .15s}
.btn-icon:hover{color:hsl(var(--primary))}.btn-icon svg{width:14px;height:14px}
.section-header{display:flex;align-items:center;justify-content:space-between;margin-bottom:16px}
.section-title{font-size:16px;font-weight:600;letter-spacing:-0.01em}
.grid{display:grid;grid-template-columns:repeat(auto-fill,minmax(280px,1fr));gap:12px;margin-bottom:40px}
.card{background:hsl(var(--card));border:1px solid hsl(var(--border));border-radius:var(--radius);padding:16px 20px;text-decoration:none;color:inherit;display:block;transition:border-color .15s,background .15s}
.card:hover{border-color:hsl(var(--ring));background:hsl(var(--accent))}
.card-top{display:flex;align-items:center;justify-content:space-between;margin-bottom:12px}
.card-name{font-weight:600;font-size:15px}
.card-status{width:8px;height:8px;border-radius:50%;flex-shrink:0}
.card-status.healthy{background:hsl(var(--success));box-shadow:0 0 0 3px hsla(var(--success)/.2)}
.card-status.down{background:hsl(var(--destructive));box-shadow:0 0 0 3px hsla(var(--destructive)/.2)}
.card-details{font-size:12px;color:hsl(var(--muted-foreground));display:flex;flex-direction:column;gap:4px}
.card-badge{display:inline-flex;align-items:center;gap:5px;border-radius:calc(var(--radius) - 2px);padding:1px 8px;font-size:11px;font-weight:500;border:1px solid hsl(var(--border));background:hsl(var(--secondary));color:hsl(var(--secondary-foreground));width:fit-content;margin-top:4px}
.card-badge svg{width:11px;height:11px}
.card-error{margin-top:8px;font-size:11px;color:hsl(var(--destructive));background:hsla(var(--destructive)/.1);padding:6px 8px;border-radius:calc(var(--radius) - 2px);word-break:break-all;max-height:56px;overflow:hidden;line-height:1.3}
.table-wrap{background:hsl(var(--card));border:1px solid hsl(var(--border));border-radius:var(--radius);overflow:hidden}
.table-wrap-inner{overflow-x:auto}
table{width:100%;border-collapse:collapse;font-size:13px}
th,td{padding:10px 14px;text-align:left;border-bottom:1px solid hsl(var(--border));white-space:nowrap}
th{color:hsl(var(--muted-foreground));font-weight:500;font-size:11px;text-transform:uppercase;letter-spacing:.05em}
tr:last-child td{border-bottom:none}
.check-ok td:first-child{color:hsl(var(--success));font-weight:500}
.check-fail td:first-child{color:hsl(var(--destructive));font-weight:500}
.status-icon{display:inline-flex;align-items:center;gap:5px}
.status-icon svg{width:14px;height:14px;flex-shrink:0}
.error-cell{max-width:220px;overflow:hidden;text-overflow:ellipsis;color:hsl(var(--destructive));font-size:11px}
@media(max-width:640px){body{padding:20px 12px}.grid{grid-template-columns:1fr}table{font-size:11px}th,td{padding:8px 10px}}
</style></head>
<body>
<h1>Open Provider</h1>
<div class="subtitle">Monitoring "###;

/// Part 1 of the dashboard page.
pub const DASHBOARD_1: &'static str = r###" providers<button class="btn-icon" onclick="location.reload()"><svg xmlns="http://www.w3.org/2000/svg" viewBox="0 0 24 24" fill="none" stroke="currentColor" stroke-width="2" stroke-linecap="round" stroke-linejoin="round"><path d="M3 12a9 9 0 0 1 9-9 9.75 9.75 0 0 1 6.74 2.74L21 8"/><path d="M21 3v5h-5"/><path d="M21 12a9 9 0 0 1-9 9 9.75 9.75 0 0 1-6.74-2.74L3 16"/><path d="M3 21v-5h5"/></svg>Refresh</button></div>
<div class="section-header"><span class="section-title">Providers</span></div>
<div class="grid">"###;

/// Part 2 of the dashboard page.
pub const DASHBOARD_2: &'static str = r###"</div>
<div class="section-header"><span class="section-title">Recent Checks</span><a href="/checks" class="btn-icon" style="text-decoration:none">View all →</a></div>
<div class="table-wrap"><div class="table-wrap-inner"><table><thead><tr><th>Provider</th><th>Time</th><th>Status</th><th>Latency</th><th>Models</th><th>Error</th></tr></thead>
<tbody>"###;

/// Part 3 of the dashboard page.
pub const DASHBOARD_3: &'static str = r###"</tbody></table></div></div>
</body></html>"###;

/// Part 0 of the page of all checks.
pub const CHECKS_PAGE_0: &'static str = r###"<!DOCTYPE html>
<html lang="en">
<head><meta charset="UTF-8"><meta name="viewport" content="width=device-width,initial-scale=1.0">
<title>All Checks — Open Provider</title>
<link rel="preconnect" href="https://fonts.googleapis.com">
<link href="https://fonts.googleapis.com/css2?family=Inter:wght@400;500;600;700&display=swap" rel="stylesheet">
<style>
:root{--background:240 10% 3.9%;--foreground:0 0% 98%;--card:240 10% 5.9%;--secondary:240 3.7% 15.9%;--secondary-foreground:0 0% 98%;--muted:240 3.7% 15.9%;--muted-foreground:240 5% 64.9%;--accent:240 3.7% 15.9%;--accent-foreground:0 0% 98%;--destructive:0 62.8% 30.6%;--success:142 76% 36%;--border:240 3.7% 15.9%;--ring:217 91% 60%;--primary:217 91% 60%;--primary-foreground:0 0% 98%;--radius:0.5rem}
*{margin:0;padding:0;box-sizing:border-box}
body{font-family:'Inter',-apple-system,BlinkMacSystemFont,sans-serif;background:hsl(var(--background));color:hsl(var(--foreground));margin:0 auto;max-width:1200px;padding:32px 24px;line-height:1.5;-webkit-font-smoothing:antialiased}
h1{font-size:24px;font-weight:700;letter-spacing:-0.02em;margin-bottom:20px}
.back{color:hsl(var(--muted-foreground));text-decoration:none;font-size:13px;display:inline-flex;align-items:center;gap:4px;margin-bottom:20px;transition:color .15s;font-weight:500}
.back:hover{color:hsl(var(--primary))}
.table-wrap{background:hsl(var(--card));border:1px solid hsl(var(--border));border-radius:var(--radius);overflow:hidden}
.table-wrap-inner{overflow-x:auto}
table{width:100%;border-collapse:collapse;font-size:13px}
th,td{padding:10px 14px;text-align:left;border-bottom:1px solid hsl(var(--border));white-space:nowrap}
th{color:hsl(var(--muted-foreground));font-weight:500;font-size:11px;text-transform:uppercase;letter-spacing:.05em;background:hsl(var(--card))}
tr:last-child td{border-bottom:none}
.check-ok td:first-child{color:hsl(var(--success));font-weight:500}
.check-fail td:first-child{color:hsl(var(--destructive));font-weight:500}
.status-icon{display:inline-flex;align-items:center;gap:5px}
.status-icon svg{width:14px;height:14px;flex-shrink:0}
.error-cell{max-width:220px;overflow:hidden;text-overflow:ellipsis;color:hsl(var(--destructive));font-size:11px}
</style></head>
<body>
<a class="back" href="/"><svg xmlns="http://www.w3.org/2000/svg" width="14" height="14" viewBox="0 0 24 24" fill="none" stroke="currentColor" stroke-width="2" stroke-linecap="round" stroke-linejoin="round"><path d="m15 18-6-6 6-6"/></svg>Back to dashboard</a>
<h1>All Checks</h1>
<div class="table-wrap"><div class="table-wrap-inner">
<table><thead><tr><th>Provider</th><th>Time</th><th>Status</th><th>Latency</th><th>Models</th><th>Error</th></tr></thead>
<tbody>"###;

/// Part 1 of the page of all checks.
pub const CHECKS_PAGE_1: &'static str = r###"</tbody></table></div></div>
</body></html>"###;

/// The badge of a free model.
pub const FREE_BADGE: &'static str = r###"<span class="free-badge">FREE</span>"###;

/// Part 0 of the cell with a model's id.
pub const ID_CELL_0: &'static str = r###"<td><code class="mid" onclick="copyId('"###;

/// Part 1 of the cell with a model's id.
pub const ID_CELL_1: &'static str = r###"',event)" title="Click to copy">"###;

/// Part 2 of the cell with a model's id.
pub const ID_CELL_2: &'static str = r###"</code>"###;

/// Part 3 of the cell with a model's id.
pub const ID_CELL_3: &'static str = r###"</td>"###;

/// Part 0 of a cell of a model's row.
pub const CELL_0: &'static str = r###"<td class="col-muted">"###;

/// Part 1 of a cell of a model's row.
pub const CELL_1: &'static str = r###"</td>"###;

/// Part 0 of a model's row.
pub const MODEL_ROW_0: &'static str = r###"<tr class=""###;

/// Part 1 of a model's row.
pub const MODEL_ROW_1: &'static str = r###"">"###;

/// Part 2 of a model's row.
pub const MODEL_ROW_2: &'static str = r###"</tr>"###;

/// Part 0 of the box with the catalogue's address.
pub const API_URL_0: &'static str = r###"<button class="copy-btn" onclick="copyId('"###;

/// Part 1 of the box with the catalogue's address.
pub const API_URL_1: &'static str = r###"',event)" title="Kopyala">📋</button><code class="api-url-code" onclick="copyId('"###;

/// Part 2 of the box with the catalogue's address.
pub const API_URL_2: &'static str = r###"',event)" title="Kopyalamak için tıkla">"###;

/// Part 3 of the box with the catalogue's address.
pub const API_URL_3: &'static str = r###"</code>"###;

/// Part 0 of the badge that names the key a provider needs.
pub const KEY_REQUIRED_0: &'static str = r###"<span class="badge"><svg xmlns="http://www.w3.org/2000/svg" viewBox="0 0 24 24" fill="none" stroke="currentColor" stroke-width="2" stroke-linecap="round" stroke-linejoin="round" width="10" height="10"><path d="M21 2l-2 2m-7.61 7.61a5.5 5.5 0 1 1-7.778 7.778 5.5 5.5 0 0 1 7.777-7.777zm0 0L15.5 7.5m0 0l3 3L22 7l-3-3m-3.5 3.5L19 4"/></svg>"###;

/// Part 1 of the badge that names the key a provider needs.
pub const KEY_REQUIRED_1: &'static str = r###" Required</span>"###;

/// Part 0 of the page of a provider's models.
pub const MODELS_PAGE_0: &'static str = r###"<!DOCTYPE html>
<html lang="en">
<head><meta charset="UTF-8"><meta name="viewport" content="width=device-width,initial-scale=1.0">
<title>"###;

/// Part 1 of the page of a provider's models.
pub const MODELS_PAGE_1: &'static str = r###" — Models — Open Provider</title>
<link rel="preconnect" href="https://fonts.googleapis.com">
<link href="https://fonts.googleapis.com/css2?family=Inter:wght@400;500;600;700&display=swap" rel="stylesheet">
<style>
:root{--background:240 10% 3.9%;--foreground:0 0% 98%;--card:240 10% 5.9%;--secondary:240 3.7% 15.9%;--secondary-foreground:0 0% 98%;--muted:240 3.7% 15.9%;--muted-foreground:240 5% 64.9%;--accent:240 3.7% 15.9%;--accent-foreground:0 0% 98%;--destructive:0 62.8% 30.6%;--success:142 76% 36%;--border:240 3.7% 15.9%;--ring:217 91% 60%;--primary:217 91% 60%;--primary-foreground:0 0% 98%;--radius:0.5rem}
*{margin:0;padding:0;box-sizing:border-box}
body{font-family:'Inter',-apple-system,BlinkMacSystemFont,sans-serif;background:hsl(var(--background));color:hsl(var(--foreground));padding:32px 24px;line-height:1.5;-webkit-font-smoothing:antialiased}
h1{font-size:28px;font-weight:700;letter-spacing:-0.02em;margin-bottom:4px}
.back{color:hsl(var(--muted-foreground));text-decoration:none;font-size:13px;display:inline-flex;align-items:center;gap:4px;margin-bottom:20px;transition:color .15s;font-weight:500}
.back:hover{color:hsl(var(--primary))}
.meta{font-size:14px;color:hsl(var(--muted-foreground));margin-bottom:16px;display:flex;align-items:center;gap:16px;flex-wrap:wrap}
.status{width:8px;height:8px;border-radius:50%;flex-shrink:0}
.status.healthy{background:hsl(var(--success));box-shadow:0 0 0 3px hsla(var(--success)/.2)}
.status.down{background:hsl(var(--destructive));box-shadow:0 0 0 3px hsla(var(--destructive)/.2)}
.api-endpoint{margin:4px 0 8px 0}
.endpoint-row{display:flex;align-items:center;gap:6px;font-size:13px;flex-wrap:wrap}
.api-url-code{background:hsl(var(--card));border:1px solid hsl(var(--border));border-radius:4px;padding:4px 8px;font-family:'SF Mono','Fira Code','Fira Mono',monospace;font-size:12px;color:hsl(var(--primary));cursor:pointer;user-select:all}
.api-url-code:hover{border-color:hsl(var(--ring))}
.copy-btn{background:hsl(var(--card));border:1px solid hsl(var(--border));border-radius:4px;padding:3px 6px;cursor:pointer;font-size:14px;display:inline-flex;align-items:center;transition:all .15s;flex-shrink:0}
.copy-btn:hover{color:hsl(var(--foreground));border-color:hsl(var(--ring));background:hsl(var(--accent))}
.table-wrap{background:hsl(var(--card));border:1px solid hsl(var(--border));border-radius:var(--radius);overflow:hidden}
.table-inner{overflow-x:auto}
table{width:100%;border-collapse:collapse;font-size:13px;white-space:nowrap}
th,td{padding:10px 14px;text-align:left;border-bottom:1px solid hsl(var(--border))}
th{color:hsl(var(--muted-foreground));font-weight:500;font-size:11px;text-transform:uppercase;letter-spacing:.05em;position:sticky;top:0;background:hsl(var(--card));z-index:1}
tr:last-child td{border-bottom:none}
.col-muted{color:hsl(var(--muted-foreground))}
.mid{color:hsl(var(--primary));cursor:pointer;user-select:all;font-size:12px;font-family:'SF Mono','Fira Code','Fira Mono',monospace;font-weight:500;padding:1px 4px;border-radius:3px;transition:background .1s}
.mid:hover{background:hsla(var(--primary)/.15)}
.mid:active{background:hsla(var(--primary)/.25)}
.toast{position:fixed;top:16px;left:50%;transform:translateX(-50%);background:hsl(var(--success));color:#fff;padding:8px 20px;border-radius:var(--radius);font-size:13px;font-weight:500;z-index:999;opacity:0;transition:opacity .2s;pointer-events:none}
.toast.show{opacity:1}
.badge{display:inline-flex;align-items:center;gap:5px;border-radius:calc(var(--radius) - 2px);padding:1px 8px;font-size:11px;font-weight:500;line-height:1.6;border:1px solid hsl(var(--border));background:hsl(var(--secondary));color:hsl(var(--secondary-foreground))}
.provider-link{display:inline-flex;align-items:center;gap:5px;color:hsl(var(--muted-foreground));text-decoration:none;font-size:13px;transition:color .15s;font-weight:500}
.provider-link:hover{color:hsl(var(--primary))}
.provider-link svg{flex-shrink:0}
.free-badge{display:inline-block;background:hsl(142,76%,36%);color:#fff;font-size:10px;font-weight:700;padding:1px 5px;border-radius:3px;margin-left:4px;vertical-align:middle;text-transform:uppercase;letter-spacing:.05em}
.tabs{display:flex;gap:4px;margin-bottom:16px;border-bottom:1px solid hsl(var(--border));padding-bottom:0}
.tab-btn{background:none;border:none;color:hsl(var(--muted-foreground));font-family:inherit;font-size:13px;font-weight:500;padding:8px 16px;cursor:pointer;border-bottom:2px solid transparent;margin-bottom:-1px;transition:all .15s}
.tab-btn:hover{color:hsl(var(--foreground))}
.tab-btn.active{color:hsl(var(--foreground));border-bottom-color:hsl(var(--primary))}
.tab-count{font-size:11px;color:hsl(var(--muted-foreground));font-weight:400;margin-left:4px}
</style>
<script>function copyId(id,e){e.stopPropagation();navigator.clipboard.writeText(id).then(()=>{let t=document.getElementById('toast');t.textContent='Copied: '+id;t.classList.add('show');setTimeout(()=>t.classList.remove('show'),2000)})}function switchTab(t){document.querySelectorAll('.tab-btn').forEach(b=>b.classList.remove('active'));event.target.classList.add('active');let all=document.querySelectorAll('tr.tab-free,tr.tab-paid');if(t==='free'){all.forEach(r=>{r.style.display=r.classList.contains('tab-free')?'table-row':'none'})}else{all.forEach(r=>r.style.display='table-row')}}</script>
</head>
<body>
<div id="toast" class="toast"></div>
<a class="back" href="/"><svg xmlns="http://www.w3.org/2000/svg" width="14" height="14" viewBox="0 0 24 24" fill="none" stroke="currentColor" stroke-width="2" stroke-linecap="round" stroke-linejoin="round"><path d="m15 18-6-6 6-6"/></svg>Back to dashboard</a>
<h1>"###;

/// Part 2 of the page of a provider's models.
pub const MODELS_PAGE_2: &'static str = r###"</h1>
<div class="meta">
<span class="status "###;

/// Part 3 of the page of a provider's models.
pub const MODELS_PAGE_3: &'static str = r###""></span>
<span>"###;

/// Part 4 of the page of a provider's models.
pub const MODELS_PAGE_4: &'static str = r###" models · "###;

/// Part 5 of the page of a provider's models.
pub const MODELS_PAGE_5: &'static str = r###"</span>
<a class="provider-link" href=""###;

/// Part 6 of the page of a provider's models.
pub const MODELS_PAGE_6: &'static str = r###"" target="_blank" rel="noopener"><svg xmlns="http://www.w3.org/2000/svg" width="12" height="12" viewBox="0 0 24 24" fill="none" stroke="currentColor" stroke-width="2" stroke-linecap="round" stroke-linejoin="round"><path d="M18 13v6a2 2 0 0 1-2 2H5a2 2 0 0 1-2-2V8a2 2 0 0 1 2-2h6"/><polyline points="15 3 21 3 21 9"/><line x1="10" y1="14" x2="21" y2="3"/></svg>"###;

/// Part 7 of the page of a provider's models.
pub const MODELS_PAGE_7: &'static str = r###"</a>
"###;

/// Part 8 of the page of a provider's models.
pub const MODELS_PAGE_8: &'static str = r###"
</div>
<div class="api-endpoint">
    <div class="endpoint-row">"###;

/// Part 9 of the page of a provider's models.
pub const MODELS_PAGE_9: &'static str = r###"</div>
</div>
<div class="tabs">
    <button class="tab-btn active" onclick="switchTab('all')">All<span class="tab-count">"###;

/// Part 10 of the page of a provider's models.
pub const MODELS_PAGE_10: &'static str = r###"</span></button>
    <button class="tab-btn" onclick="switchTab('free')">Free<span class="tab-count">"###;

/// Part 11 of the page of a provider's models.
pub const MODELS_PAGE_11: &'static str = r###"</span></button>
</div>
<div class="table-wrap"><div class="table-inner">
<table><thead><tr>"###;

/// Part 12 of the page of a provider's models.
pub const MODELS_PAGE_12: &'static str = r###"</tr></thead>
<tbody>"###;

/// Part 13 of the page of a provider's models.
pub const MODELS_PAGE_13: &'static str = r###"</tbody></table></div></div></body></html>"###;

} // verus!
